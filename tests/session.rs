use cargo_godot::config::{Config, Metadata, Package, Section};
use cargo_godot::error::Error;
use cargo_godot::opt::{Build, Command, DebugType, Editor, Export, Run, Script};
use cargo_godot::session::{Action, Event, Session, Stage};

fn metadata(godot: Section) -> Metadata {
    Metadata {
        packages: vec![Package { id: "game 0.1".to_string(), name: "game".to_string(), godot }],
        root: Some("game 0.1".to_string()),
    }
}

fn given() -> Section {
    Section::Given(Config {
        name: String::new(),
        project: "../godot".to_string(),
        remote_debug: None,
        godot_executable: "godot".to_string(),
    })
}

const MANIFEST: &str = "/work/rust/Cargo.toml";

fn exec_of(a: &Action) -> (String, Vec<String>) {
    match a {
        Action::Exec { program, args } => (program.clone(), args.clone()),
        other => panic!("expected a program to run, got {:?}", other),
    }
}

fn strings(v: &[&str]) -> Vec<String> {
    v.iter().map(|s| s.to_string()).collect()
}

#[test]
fn editor_with_missing_section_runs_nothing() {
    let (s, a) = Session::new(Command::Editor(Editor { manifest_path: MANIFEST.to_string() }));
    assert!(matches!(a, Action::Metadata { ref manifest_path } if manifest_path == MANIFEST));
    assert_eq!(s.stage, Stage::Querying);
    let (s, a) = s.step(Event::Metadata(Ok(metadata(Section::Missing))));
    assert_eq!(s.stage, Stage::Finished);
    assert!(matches!(a, Action::Finish(Err(Error::MissingMetadata))));
}

#[test]
fn script_and_debug_read_the_configuration_first() {
    for command in [
        Command::Script(Script { manifest_path: MANIFEST.to_string(), script: "a.gd".to_string() }),
        Command::Debug(cargo_godot::opt::Debug { manifest_path: MANIFEST.to_string() }),
    ] {
        let (s, a) = Session::new(command);
        assert!(matches!(a, Action::Metadata { .. }));
        let (_, a) = s.step(Event::Metadata(Ok(metadata(Section::Missing))));
        assert!(matches!(a, Action::Finish(Err(Error::MissingMetadata))));
    }
}

#[test]
fn editor_flow_launches_with_canonical_project() {
    let (s, _) = Session::new(Command::Editor(Editor { manifest_path: MANIFEST.to_string() }));
    let (s, a) = s.step(Event::Metadata(Ok(metadata(given()))));
    assert!(matches!(a, Action::Canonicalize { ref path } if path == "/work/rust/../godot"));
    let (s, a) = s.step(Event::Path(Ok("/work/godot".to_string())));
    assert_eq!(exec_of(&a), ("godot".to_string(), strings(&["--editor", "--path", "/work/godot"])));
    let (s, a) = s.step(Event::Done(Err(Error::Exec("godot".to_string()))));
    assert_eq!(s.stage, Stage::Finished);
    assert!(matches!(a, Action::Finish(Err(Error::Exec(ref p))) if p == "godot"));
}

#[test]
fn failed_canonicalization_ends_the_command() {
    let (s, _) = Session::new(Command::Script(Script { manifest_path: MANIFEST.to_string(), script: "a.gd".to_string() }));
    let (s, _) = s.step(Event::Metadata(Ok(metadata(given()))));
    let (s, a) = s.step(Event::Path(Err(Error::PathResolution("/work/rust/../godot".to_string()))));
    assert_eq!(s.stage, Stage::Finished);
    assert!(matches!(a, Action::Finish(Err(Error::PathResolution(_)))));
}

#[test]
fn build_flow_writes_the_descriptor() {
    let (s, a) = Session::new(Command::Build(Build { manifest_path: MANIFEST.to_string() }));
    assert_eq!(exec_of(&a), ("cargo".to_string(), strings(&["build", "--manifest-path", MANIFEST])));
    let (s, a) = s.step(Event::Done(Ok(())));
    assert!(matches!(a, Action::Metadata { .. }));
    let (s, _) = s.step(Event::Metadata(Ok(metadata(given()))));
    let (s, a) = s.step(Event::Path(Ok("/work/godot".to_string())));
    assert!(matches!(a, Action::Canonicalize { ref path } if path == "/work/rust"));
    let (s, a) = s.step(Event::Path(Ok("/work/rust".to_string())));
    match a {
        Action::WriteFile { path, contents } => {
            assert_eq!(path, "/work/rust/game.gdextension");
            assert!(contents.contains("linux.debug.x86_64 =     \"res://../rust/target/debug/libgame.so\"\n"));
        },
        other => panic!("expected a file to write, got {:?}", other),
    }
    let (s, a) = s.step(Event::Done(Ok(())));
    assert_eq!(s.stage, Stage::Finished);
    assert!(matches!(a, Action::Finish(Ok(()))));
}

#[test]
fn build_failure_stops_before_metadata() {
    let (s, _) = Session::new(Command::Build(Build { manifest_path: MANIFEST.to_string() }));
    let (_, a) = s.step(Event::Done(Err(Error::Exec("cargo".to_string()))));
    assert!(matches!(a, Action::Finish(Err(Error::Exec(ref p))) if p == "cargo"));
}

#[test]
fn run_flow_describes_then_resolves_again() {
    let run = Run {
        manifest_path: MANIFEST.to_string(),
        editor_pid: Some(99),
        scene: Some("Main.tscn".to_string()),
        debug: vec![DebugType::Navigation],
    };
    let (s, a) = Session::new(Command::Run(run));
    assert_eq!(exec_of(&a).0, "cargo");
    let (s, _) = s.step(Event::Done(Ok(())));
    let (s, _) = s.step(Event::Metadata(Ok(metadata(given()))));
    let (s, _) = s.step(Event::Path(Ok("/work/godot".to_string())));
    let (s, a) = s.step(Event::Path(Ok("/work/rust".to_string())));
    assert!(matches!(a, Action::WriteFile { .. }));
    let (s, a) = s.step(Event::Done(Ok(())));
    assert!(matches!(a, Action::Metadata { .. }));
    assert!(s.described);
    let (s, _) = s.step(Event::Metadata(Ok(metadata(given()))));
    let (s, a) = s.step(Event::Path(Ok("/work/godot".to_string())));
    assert_eq!(
        exec_of(&a),
        (
            "godot".to_string(),
            strings(&["--path", "/work/godot", "--editor-pid", "99", "--debug-navigation", "Main.tscn"])
        )
    );
    let (_, a) = s.step(Event::Done(Ok(())));
    assert!(matches!(a, Action::Finish(Ok(()))));
}

#[test]
fn debug_flow_compiles_locates_and_wraps() {
    let (s, _) = Session::new(Command::Debug(cargo_godot::opt::Debug { manifest_path: MANIFEST.to_string() }));
    let (s, _) = s.step(Event::Metadata(Ok(metadata(given()))));
    let (s, a) = s.step(Event::Path(Ok("/work/godot".to_string())));
    assert_eq!(exec_of(&a), ("cargo".to_string(), strings(&["build", "--manifest-path", MANIFEST])));
    let (s, a) = s.step(Event::Done(Ok(())));
    assert!(matches!(a, Action::Locate { ref program } if program == "godot"));
    let (_, a) = s.step(Event::Path(Ok("/usr/bin/godot".to_string())));
    assert_eq!(
        exec_of(&a),
        ("lldb".to_string(), strings(&["/usr/bin/godot", "--", "--path", "/work/godot"]))
    );
}

#[test]
fn export_with_default_relative_output() {
    let export = Export {
        manifest_path: MANIFEST.to_string(),
        release: true,
        preset: "Linux".to_string(),
        path: None,
    };
    let (s, a) = Session::new(Command::Export(export));
    assert_eq!(exec_of(&a).1, strings(&["build", "--manifest-path", MANIFEST, "--release"]));
    let (s, _) = s.step(Event::Done(Ok(())));
    let (s, _) = s.step(Event::Metadata(Ok(metadata(given()))));
    let (s, a) = s.step(Event::Path(Ok("/work/godot".to_string())));
    assert!(matches!(a, Action::CurrentDir));
    let (s, a) = s.step(Event::Path(Ok("/work".to_string())));
    assert!(matches!(a, Action::Exists { ref path } if path == "/work/build"));
    let (s, a) = s.step(Event::Exists(false));
    assert!(matches!(a, Action::CreateDirAll { ref path } if path == "/work/build"));
    let (s, a) = s.step(Event::Done(Ok(())));
    assert_eq!(
        exec_of(&a),
        (
            "godot".to_string(),
            strings(&["--path", "/work/godot", "--export-release", "Linux", "/work/build/game"])
        )
    );
    assert_eq!(s.stage, Stage::Launching);
}

#[test]
fn export_with_absolute_output_skips_current_dir() {
    let export = Export {
        manifest_path: MANIFEST.to_string(),
        release: false,
        preset: "Web".to_string(),
        path: Some("/out/web/index.html".to_string()),
    };
    let (s, _) = Session::new(Command::Export(export));
    let (s, _) = s.step(Event::Done(Ok(())));
    let (s, _) = s.step(Event::Metadata(Ok(metadata(given()))));
    let (s, a) = s.step(Event::Path(Ok("/work/godot".to_string())));
    assert!(matches!(a, Action::Exists { ref path } if path == "/out/web"));
    let (_, a) = s.step(Event::Exists(true));
    assert_eq!(
        exec_of(&a).1,
        strings(&["--path", "/work/godot", "--export-debug", "Web", "/out/web/index.html"])
    );
}
