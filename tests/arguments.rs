use cargo_godot::args::{
    cargo_build, debug_args, editor_args, export_args, has_flag, run_args, script_args,
};
use cargo_godot::config::{default_godot_path, Config};
use cargo_godot::opt::DebugType;

fn config(remote: Option<&str>) -> Config {
    Config {
        name: "foo".to_string(),
        project: "/home/me/game/godot".to_string(),
        remote_debug: remote.map(|r| r.to_string()),
        godot_executable: "godot4".to_string(),
    }
}

fn strings(v: &[&str]) -> Vec<String> {
    v.iter().map(|s| s.to_string()).collect()
}

#[test]
fn default_engine_is_godot() {
    assert_eq!(default_godot_path(), "godot");
}

#[test]
fn base_args_without_remote_debug() {
    let (godot, args) = config(None).into_args();
    assert_eq!(godot, "godot4");
    assert_eq!(args, strings(&["--path", "/home/me/game/godot"]));
}

#[test]
fn base_args_with_remote_debug() {
    let (_, args) = config(Some("tcp://127.0.0.1:6007")).into_args();
    assert_eq!(
        args,
        strings(&["--path", "/home/me/game/godot", "--remote-debug", "tcp://127.0.0.1:6007"])
    );
}

#[test]
fn editor_starts_with_editor_flag_and_ignores_remote_debug() {
    let (godot, args) = editor_args(config(Some("tcp://127.0.0.1:6007")));
    assert_eq!(godot, "godot4");
    assert_eq!(args, strings(&["--editor", "--path", "/home/me/game/godot"]));
}

#[test]
fn run_with_navigation_overlay_and_scene() {
    let (_, args) = run_args(config(None), None, &vec![DebugType::Navigation], Some("Main.tscn".to_string()));
    assert_eq!(args, strings(&["--path", "/home/me/game/godot", "--debug-navigation", "Main.tscn"]));
    assert!(!args.contains(&"--debug-collisions".to_string()));
}

#[test]
fn run_orders_overlays_and_formats_the_pid() {
    let (_, args) = run_args(
        config(Some("tcp://h:1")),
        Some(4321),
        &vec![DebugType::Navigation, DebugType::Collisions, DebugType::Navigation],
        None,
    );
    assert_eq!(
        args,
        strings(&[
            "--path",
            "/home/me/game/godot",
            "--remote-debug",
            "tcp://h:1",
            "--editor-pid",
            "4321",
            "--debug-collisions",
            "--debug-navigation",
        ])
    );
}

#[test]
fn run_with_negative_pid_and_nothing_else() {
    let (_, args) = run_args(config(None), Some(-7), &vec![], None);
    assert_eq!(args, strings(&["--path", "/home/me/game/godot", "--editor-pid", "-7"]));
}

#[test]
fn export_release_ends_with_preset_and_path() {
    let (godot, args) = export_args(
        config(Some("tcp://h:1")),
        true,
        "Linux".to_string(),
        "/out/build/foo".to_string(),
    );
    assert_eq!(godot, "godot4");
    assert_eq!(
        args,
        strings(&[
            "--path",
            "/home/me/game/godot",
            "--remote-debug",
            "tcp://h:1",
            "--export-release",
            "Linux",
            "/out/build/foo",
        ])
    );
    assert!(!args.contains(&"--export-debug".to_string()));
}

#[test]
fn export_debug_has_only_the_debug_flag() {
    let (_, args) = export_args(config(None), false, "Web".to_string(), "/out/web".to_string());
    assert_eq!(
        args,
        strings(&["--path", "/home/me/game/godot", "--export-debug", "Web", "/out/web"])
    );
    assert!(!args.contains(&"--export-release".to_string()));
    assert!(!args.contains(&"--remote-debug".to_string()));
}

#[test]
fn script_args_end_with_script() {
    let (_, args) = script_args(config(None), "tools/gen.gd".to_string());
    assert_eq!(args, strings(&["--path", "/home/me/game/godot", "--script", "tools/gen.gd"]));
}

#[test]
fn debugger_gets_engine_then_separator() {
    let (program, args) = debug_args(config(Some("tcp://h:1")), "/usr/bin/godot4".to_string());
    assert_eq!(program, "lldb");
    assert_eq!(
        args,
        strings(&[
            "/usr/bin/godot4",
            "--",
            "--path",
            "/home/me/game/godot",
            "--remote-debug",
            "tcp://h:1",
        ])
    );
}

#[test]
fn cargo_build_modes() {
    let (program, args) = cargo_build(&"./Cargo.toml".to_string(), false);
    assert_eq!(program, "cargo");
    assert_eq!(args, strings(&["build", "--manifest-path", "./Cargo.toml"]));
    let (_, args) = cargo_build(&"rust/Cargo.toml".to_string(), true);
    assert_eq!(args, strings(&["build", "--manifest-path", "rust/Cargo.toml", "--release"]));
}

#[test]
fn flags_are_found() {
    let v = vec![DebugType::Navigation];
    assert!(has_flag(&v, DebugType::Navigation));
    assert!(!has_flag(&v, DebugType::Collisions));
    assert!(!has_flag(&vec![], DebugType::Collisions));
}

#[test]
fn run_pid_extremes_and_zero() {
    let (_, args) = run_args(config(None), Some(i32::MIN), &vec![], None);
    assert_eq!(args[3], "-2147483648");
    let (_, args) = run_args(config(None), Some(0), &vec![], None);
    assert_eq!(args[3], "0");
    let (_, args) = run_args(config(None), Some(i32::MAX), &vec![], None);
    assert_eq!(args[3], "2147483647");
    let (_, args) = run_args(config(None), Some(10), &vec![], None);
    assert_eq!(args[3], "10");
}
