use vstd::prelude::*;
use crate::args::{
    engine_args_start_with_project,
    cargo_build, cargo_build_args_spec, cargo_text, debug_args, debug_args_spec, debugger_text,
    editor_args, editor_args_spec, export_args, export_args_spec, run_args, run_args_spec,
    script_args, script_args_spec,
};
use crate::config::{texts, Config, Metadata, Section, located};
use crate::descriptor::{descriptor_contents, descriptor_text};
use crate::error::Error;
use crate::opt::Command;
use crate::paths::{
    diff_paths, is_absolute, is_absolute_path, join_path, joined_path, parent, parent_path,
    relative_path, with_extension, with_extension_path,
};

verus! {

/// What a session waits for.
#[derive(Debug, Clone, Copy, PartialEq, Eq, Structural)]
pub enum Stage {
    /// The build tool compiling the package.
    Compiling,
    /// The build metadata of the manifest.
    Querying,
    /// The canonical form of the project path.
    Canonicalizing,
    /// The canonical form of the manifest's directory.
    ManifestDir,
    /// The descriptor file being written.
    Writing,
    /// The engine binary's location on the search path.
    Locating,
    /// The current directory.
    WorkingDir,
    /// Whether the export's output directory exists.
    Checking,
    /// The export's output directory being created.
    Creating,
    /// The engine or the debugger running.
    Launching,
    /// Nothing: the command is over.
    Finished,
}

/// What the session asks its driver to do next.
#[derive(Debug)]
pub enum Action {
    /// Run `program` with `args`; answered by `Event::Done`.
    Exec { program: String, args: Vec<String> },
    /// Query the build metadata of a manifest; answered by `Event::Metadata`.
    Metadata { manifest_path: String },
    /// Make a path absolute and canonical; answered by `Event::Path`.
    Canonicalize { path: String },
    /// Find a program on the search path; answered by `Event::Path`.
    Locate { program: String },
    /// Read the current directory; answered by `Event::Path`.
    CurrentDir,
    /// Tell whether a path exists; answered by `Event::Exists`.
    Exists { path: String },
    /// Create a directory and its parents; answered by `Event::Done`.
    CreateDirAll { path: String },
    /// Write a whole file; answered by `Event::Done`.
    WriteFile { path: String, contents: String },
    /// The command is over, with this outcome.
    Finish(Result<(), Error>),
}

/// What the driver reports back after an action.
#[derive(Debug)]
pub enum Event {
    Done(Result<(), Error>),
    Metadata(Result<Metadata, Error>),
    Path(Result<String, Error>),
    Exists(bool),
}

/// The error that an event reports, if it reports one.
pub open spec fn event_error(e: Event) -> Option<Error> {
    match e {
        Event::Done(Err(x)) => Some(x),
        Event::Metadata(Err(x)) => Some(x),
        Event::Path(Err(x)) => Some(x),
        _ => None,
    }
}

/// The commands that a session runs: those that read the project configuration.
pub open spec fn is_session_command(c: Command) -> bool {
    !(c is Create) && !(c is Init)
}

/// The manifest path of a command that has one.
pub open spec fn manifest_of(c: Command) -> Seq<char> {
    match c {
        Command::Build(o) => o.manifest_path@,
        Command::Debug(o) => o.manifest_path@,
        Command::Editor(o) => o.manifest_path@,
        Command::Export(o) => o.manifest_path@,
        Command::Run(o) => o.manifest_path@,
        Command::Script(o) => o.manifest_path@,
        _ => Seq::empty(),
    }
}

/// The stage a command starts in: those that compile first wait for the build
/// tool, the others for the build metadata.
pub open spec fn opening(c: Command) -> Stage {
    match c {
        Command::Build(_) | Command::Export(_) | Command::Run(_) => Stage::Compiling,
        _ => Stage::Querying,
    }
}

/// Whether the command compiles in release mode.
pub open spec fn release_of(c: Command) -> bool {
    match c {
        Command::Export(o) => o.release,
        _ => false,
    }
}

/// `a` runs `program` with arguments `args`.
pub open spec fn runs(a: Action, program: Seq<char>, args: Seq<Seq<char>>) -> bool {
    a matches Action::Exec { program: p, args: v } && p@ == program && texts(v) == args
}

/// The text `build/` followed by `name`: the export's output path when none is given.
pub open spec fn default_output(name: Seq<char>) -> Seq<char> {
    "build/"@ + name
}

/// One run of a command: where it stands and what it has learned so far.
pub struct Session {
    /// The command being run.
    pub command: Command,
    /// What the session waits for.
    pub stage: Stage,
    /// The configuration, once read.
    pub config: Option<Config>,
    /// The manifest's directory while the descriptor is made; the output path
    /// while an export prepares it.
    pub path: Option<String>,
    /// Whether a run has already built the extension and written its descriptor.
    pub described: bool,
}

impl Stage {
    /// Whether `e` answers the action that leads to this stage.
    pub open spec fn accepts(self, e: Event) -> bool {
        match self {
            Stage::Compiling | Stage::Writing | Stage::Creating | Stage::Launching => e is Done,
            Stage::Querying => e is Metadata && (e matches Event::Metadata(Ok(m)) ==> m.wf()),
            Stage::Canonicalizing | Stage::ManifestDir | Stage::Locating | Stage::WorkingDir => e is Path,
            Stage::Checking => e is Exists,
            Stage::Finished => false,
        }
    }
}

impl Session {
    /// The fields that each stage relies on are there.
    pub open spec fn wf(self) -> bool {
        &&& is_session_command(self.command)
        &&& (self.described ==> self.command is Run)
        &&& match self.stage {
            Stage::Compiling => self.command is Debug ==> self.config is Some,
            Stage::Canonicalizing | Stage::Locating => self.config is Some,
            Stage::ManifestDir => self.config is Some && self.path is Some,
            Stage::WorkingDir => self.command is Export && self.config is Some && self.path is Some,
            Stage::Checking | Stage::Creating => {
                &&& self.command is Export
                &&& self.config is Some
                &&& self.path is Some
                &&& parent_path(self.path->0@) is Some
            },
            _ => true,
        }
    }

    /// What follows in a command once its configuration `c` is resolved.
    pub open spec fn after_config(self, c: Config, next: Session, a: Action) -> bool {
        &&& next.command == self.command
        &&& next.described == self.described
        &&& if self.command is Build || (self.command is Run && !self.described) {
            match parent_path(manifest_of(self.command)) {
                None => a matches Action::Finish(Err(Error::PathResolution(m))) && m@ == manifest_of(self.command)
                    && next.stage == Stage::Finished,
                Some(dir) => a matches Action::Canonicalize { path } && path@ == dir && next.stage
                    == Stage::ManifestDir && next.config == Some(c) && next.path == Some(path),
            }
        } else {
            match self.command {
                Command::Run(o) => {
                    &&& runs(a, c.godot_executable@, run_args_spec(c, o.editor_pid, o.debug@, o.scene))
                    &&& next.stage == Stage::Launching
                },
                Command::Editor(_) => {
                    &&& runs(a, c.godot_executable@, editor_args_spec(c))
                    &&& next.stage == Stage::Launching
                },
                Command::Script(o) => {
                    &&& runs(a, c.godot_executable@, script_args_spec(c, o.script@))
                    &&& next.stage == Stage::Launching
                },
                Command::Debug(_) => {
                    &&& runs(a, cargo_text(), cargo_build_args_spec(manifest_of(self.command), false))
                    &&& next.stage == Stage::Compiling
                    &&& next.config == Some(c)
                },
                Command::Export(o) => {
                    let out = match o.path {
                        Some(p) => p@,
                        None => default_output(c.name@),
                    };
                    if is_absolute_path(out) {
                        self.prepare_output(c, out, next, a)
                    } else {
                        &&& a is CurrentDir
                        &&& next.stage == Stage::WorkingDir
                        &&& next.config == Some(c)
                        &&& next.path matches Some(p)
                        &&& p@ == out
                    }
                },
                _ => false,
            }
        }
    }

    /// What an export does with its absolute output path `out`: look at the
    /// directory that holds it.
    pub open spec fn prepare_output(self, c: Config, out: Seq<char>, next: Session, a: Action) -> bool {
        &&& next.command == self.command
        &&& next.described == self.described
        &&& match parent_path(out) {
            None => a matches Action::Finish(Err(Error::PathResolution(m))) && m@ == out && next.stage
                == Stage::Finished,
            Some(dir) => {
                &&& next.stage == Stage::Checking
                &&& next.config == Some(c)
                &&& next.path matches Some(p)
                &&& p@ == out
                &&& a matches Action::Exists { path }
                &&& path@ == dir
            },
        }
    }

    /// The export's engine invocation, with output path `out`.
    pub open spec fn launches_export(self, c: Config, out: Seq<char>, next: Session, a: Action) -> bool {
        &&& next.stage == Stage::Launching
        &&& next.command == self.command
        &&& self.command matches Command::Export(o)
        &&& runs(a, c.godot_executable@, export_args_spec(c, o.release, o.preset@, out))
    }

    /// `next` and `a` are what this session moves to, and asks for, on `e`.
    pub open spec fn steps_to(self, e: Event, next: Session, a: Action) -> bool {
        match event_error(e) {
            Some(x) => a == Action::Finish(Err(x)) && next.stage == Stage::Finished,
            None => match (self.stage, e) {
                (Stage::Compiling, _) => {
                    &&& next.command == self.command
                    &&& next.described == self.described
                    &&& if self.command is Debug {
                        a matches Action::Locate { program } && program@ == self.config->0.godot_executable@
                            && next.stage == Stage::Locating && next.config == self.config
                    } else {
                        a matches Action::Metadata { manifest_path } && manifest_path@ == manifest_of(self.command)
                            && next.stage == Stage::Querying
                    }
                },
                (Stage::Querying, Event::Metadata(Ok(m))) => match m.root_package().godot {
                    Section::Missing => a == Action::Finish(Err(Error::MissingMetadata)) && next.stage == Stage::Finished,
                    Section::Invalid(why) => a matches Action::Finish(Err(Error::InvalidMetadata(w))) && w@ == why@
                        && next.stage == Stage::Finished,
                    Section::Given(c) => match parent_path(manifest_of(self.command)) {
                        None => a matches Action::Finish(Err(Error::PathResolution(p))) && p@ == manifest_of(self.command)
                            && next.stage == Stage::Finished,
                        Some(dir) => {
                            &&& a matches Action::Canonicalize { path }
                            &&& path@ == located(c, m.root_package().name@, dir).1
                            &&& next.stage == Stage::Canonicalizing
                            &&& next.command == self.command
                            &&& next.described == self.described
                            &&& next.config matches Some(k)
                            &&& (k.name@, k.project@) == located(c, m.root_package().name@, dir)
                            &&& k.remote_debug == c.remote_debug
                            &&& k.godot_executable == c.godot_executable
                        },
                    },
                },
                (Stage::Canonicalizing, Event::Path(Ok(p))) => self.after_config(
                    Config { project: p, ..self.config->0 },
                    next,
                    a,
                ),
                (Stage::ManifestDir, Event::Path(Ok(dir))) => {
                    let c = self.config->0;
                    match relative_path(dir@, c.project@) {
                        None => a matches Action::Finish(Err(Error::PathResolution(m))) && m@ == dir@
                            && next.stage == Stage::Finished,
                        Some(rel) => {
                            &&& a matches Action::WriteFile { path, contents }
                            &&& path@ == with_extension_path(joined_path(self.path->0@, c.name@), "gdextension"@)
                            &&& contents@ == descriptor_text(joined_path(rel, "target"@), c.name@)
                            &&& next.stage == Stage::Writing
                            &&& next.command == self.command
                            &&& next.described == self.described
                        },
                    }
                },
                (Stage::Writing, _) => if self.command is Run {
                    &&& a matches Action::Metadata { manifest_path }
                    &&& manifest_path@ == manifest_of(self.command)
                    &&& next.stage == Stage::Querying
                    &&& next.command == self.command
                    &&& next.described
                } else {
                    a == Action::Finish(Ok(())) && next.stage == Stage::Finished
                },
                (Stage::Locating, Event::Path(Ok(engine))) => {
                    &&& runs(a, debugger_text(), debug_args_spec(self.config->0, engine@))
                    &&& next.stage == Stage::Launching
                    &&& next.command == self.command
                },
                (Stage::WorkingDir, Event::Path(Ok(cwd))) => self.prepare_output(
                    self.config->0,
                    joined_path(cwd@, self.path->0@),
                    next,
                    a,
                ),
                (Stage::Checking, Event::Exists(true)) => self.launches_export(self.config->0, self.path->0@, next, a),
                (Stage::Checking, Event::Exists(false)) => {
                    &&& a matches Action::CreateDirAll { path }
                    &&& parent_path(self.path->0@) == Some(path@)
                    &&& next.stage == Stage::Creating
                    &&& next.command == self.command
                    &&& next.config == self.config
                    &&& next.path == self.path
                },
                (Stage::Creating, _) => self.launches_export(self.config->0, self.path->0@, next, a),
                (Stage::Launching, _) => a == Action::Finish(Ok(())) && next.stage == Stage::Finished,
                _ => false,
            },
        }
    }
}

/// The manifest path of a command that has one.
fn manifest(command: &Command) -> (r: String)
    requires
        is_session_command(*command),
    ensures
        r@ == manifest_of(*command),
{
    match command {
        Command::Build(o) => o.manifest_path.clone(),
        Command::Debug(o) => o.manifest_path.clone(),
        Command::Editor(o) => o.manifest_path.clone(),
        Command::Export(o) => o.manifest_path.clone(),
        Command::Run(o) => o.manifest_path.clone(),
        Command::Script(o) => o.manifest_path.clone(),
        _ => String::new(),
    }
}

/// The end of a session, with `outcome`.
fn finish(command: Command, outcome: Result<(), Error>) -> (r: (Session, Action))
    ensures
        r.0.stage == Stage::Finished,
        r.0.command == command,
        !r.0.described,
        r.1 == Action::Finish(outcome),
{
    (
        Session { command, stage: Stage::Finished, config: None, path: None, described: false },
        Action::Finish(outcome),
    )
}

impl Session {
    /// A new session for `command`, and its first action: compile the package,
    /// for the commands that compile first, or else read the build metadata.
    pub fn new(command: Command) -> (r: (Session, Action))
        requires
            is_session_command(command),
        ensures
            r.0.wf(),
            r.0.command == command,
            r.0.stage == opening(command),
            r.0.config is None,
            !r.0.described,
            r.0.stage == Stage::Compiling ==> runs(
                r.1,
                cargo_text(),
                cargo_build_args_spec(manifest_of(command), release_of(command)),
            ),
            r.0.stage == Stage::Querying ==> (r.1 matches Action::Metadata { manifest_path }
                && manifest_path@ == manifest_of(command)),
    {
        let m = manifest(&command);
        let compiles_first = match &command {
            Command::Build(_) | Command::Run(_) | Command::Export(_) => true,
            _ => false,
        };
        if compiles_first {
            let release = match &command {
                Command::Export(o) => o.release,
                _ => false,
            };
            let (program, args) = cargo_build(&m, release);
            (
                Session { command, stage: Stage::Compiling, config: None, path: None, described: false },
                Action::Exec { program, args },
            )
        } else {
            (
                Session { command, stage: Stage::Querying, config: None, path: None, described: false },
                Action::Metadata { manifest_path: m },
            )
        }
    }

    /// The export's output directory is checked: look at the directory that
    /// holds the absolute output path `out`.
    fn prepare_export(command: Command, config: Config, out: String) -> (r: (Session, Action))
        requires
            command is Export,
        ensures
            r.0.wf(),
            (Session { command, stage: Stage::WorkingDir, config: None, path: None, described: false })
                .prepare_output(config, out@, r.0, r.1),
    {
        match parent(out.as_str()) {
            None => finish(command, Err(Error::PathResolution(out))),
            Some(dir) => (
                Session {
                    command,
                    stage: Stage::Checking,
                    config: Some(config),
                    path: Some(out),
                    described: false,
                },
                Action::Exists { path: dir },
            ),
        }
    }

    /// The export's engine invocation.
    fn launch_export(command: Command, config: Config, out: String) -> (r: (Session, Action))
        requires
            command is Export,
        ensures
            r.0.wf(),
            (Session { command, stage: Stage::Creating, config: None, path: None, described: false })
                .launches_export(config, out@, r.0, r.1),
    {
        let (program, args) = match &command {
            Command::Export(o) => export_args(config, o.release, o.preset.clone(), out),
            _ => {
                assert(false);
                (String::new(), Vec::new())
            },
        };
        (
            Session { command, stage: Stage::Launching, config: None, path: None, described: false },
            Action::Exec { program, args },
        )
    }

    /// What follows once the configuration is resolved.
    fn resolved(command: Command, config: Config, described: bool) -> (r: (Session, Action))
        requires
            is_session_command(command),
            described ==> command is Run,
        ensures
            r.0.wf(),
            (Session { command, stage: Stage::Canonicalizing, config: None, path: None, described })
                .after_config(config, r.0, r.1),
    {
        let describes = match &command {
            Command::Build(_) => true,
            Command::Run(_) => !described,
            _ => false,
        };
        if describes {
            let m = manifest(&command);
            return match parent(m.as_str()) {
                None => {
                    let r = finish(command, Err(Error::PathResolution(m)));
                    (Session { described, ..r.0 }, r.1)
                },
                Some(dir) => (
                    Session {
                        command,
                        stage: Stage::ManifestDir,
                        config: Some(config),
                        path: Some(dir.clone()),
                        described,
                    },
                    Action::Canonicalize { path: dir },
                ),
            };
        }
        match command {
            Command::Run(o) => {
                let (program, args) = run_args(config, o.editor_pid, &o.debug, o.scene.clone());
                (
                    Session { command: Command::Run(o), stage: Stage::Launching, config: None, path: None, described },
                    Action::Exec { program, args },
                )
            },
            Command::Editor(o) => {
                let (program, args) = editor_args(config);
                (
                    Session { command: Command::Editor(o), stage: Stage::Launching, config: None, path: None, described },
                    Action::Exec { program, args },
                )
            },
            Command::Script(o) => {
                let (program, args) = script_args(config, o.script.clone());
                (
                    Session { command: Command::Script(o), stage: Stage::Launching, config: None, path: None, described },
                    Action::Exec { program, args },
                )
            },
            Command::Debug(o) => {
                let (program, args) = cargo_build(&o.manifest_path, false);
                (
                    Session { command: Command::Debug(o), stage: Stage::Compiling, config: Some(config), path: None, described },
                    Action::Exec { program, args },
                )
            },
            Command::Export(o) => {
                let out = match &o.path {
                    Some(p) => p.clone(),
                    None => {
                        let mut p = String::from_str("build/");
                        p.append(config.name.as_str());
                        p
                    },
                };
                if is_absolute(out.as_str()) {
                    Self::prepare_export(Command::Export(o), config, out)
                } else {
                    (
                        Session { command: Command::Export(o), stage: Stage::WorkingDir, config: Some(config), path: Some(out), described },
                        Action::CurrentDir,
                    )
                }
            },
            _ => {
                assert(false);
                finish(command, Ok(()))
            },
        }
    }

    /// Moves the session on by what the driver reports for the last action.
    /// An error ends the command with that error, unchanged.
    pub fn step(self, event: Event) -> (r: (Session, Action))
        requires
            self.wf(),
            self.stage.accepts(event),
        ensures
            r.0.wf(),
            self.steps_to(event, r.0, r.1),
    {
        let Session { command, stage, config, path, described } = self;
        match event {
            Event::Done(Err(e)) => return finish(command, Err(e)),
            Event::Metadata(Err(e)) => return finish(command, Err(e)),
            Event::Path(Err(e)) => return finish(command, Err(e)),
            _ => {},
        }
        match stage {
            Stage::Compiling => {
                if let Command::Debug(_) = &command {
                    let c = config.unwrap();
                    let program = c.godot_executable.clone();
                    (
                        Session { command, stage: Stage::Locating, config: Some(c), path: None, described },
                        Action::Locate { program },
                    )
                } else {
                    let m = manifest(&command);
                    (
                        Session { command, stage: Stage::Querying, config: None, path: None, described },
                        Action::Metadata { manifest_path: m },
                    )
                }
            },
            Stage::Querying => {
                let m = match event {
                    Event::Metadata(Ok(m)) => m,
                    _ => {
                        assert(false);
                        return finish(command, Ok(()));
                    },
                };
                let manifest_path = manifest(&command);
                match Config::try_from(&manifest_path, &m) {
                    Err(e) => finish(command, Err(e)),
                    Ok(c) => {
                        let project = c.project.clone();
                        (
                            Session { command, stage: Stage::Canonicalizing, config: Some(c), path: None, described },
                            Action::Canonicalize { path: project },
                        )
                    },
                }
            },
            Stage::Canonicalizing => {
                let p = match event {
                    Event::Path(Ok(p)) => p,
                    _ => {
                        assert(false);
                        return finish(command, Ok(()));
                    },
                };
                let c = config.unwrap().with_project(p);
                Self::resolved(command, c, described)
            },
            Stage::ManifestDir => {
                let dir = match event {
                    Event::Path(Ok(p)) => p,
                    _ => {
                        assert(false);
                        return finish(command, Ok(()));
                    },
                };
                let c = config.unwrap();
                let manifest_dir = path.unwrap();
                match diff_paths(dir.as_str(), c.project.as_str()) {
                    None => finish(command, Err(Error::PathResolution(dir))),
                    Some(rel) => {
                        let target = join_path(rel.as_str(), "target");
                        let contents = descriptor_contents(&target, &c.name);
                        proof {
                            reveal_strlit("gdextension");
                        }
                        let file = with_extension(join_path(manifest_dir.as_str(), c.name.as_str()).as_str(), "gdextension");
                        (
                            Session { command, stage: Stage::Writing, config: None, path: None, described },
                            Action::WriteFile { path: file, contents },
                        )
                    },
                }
            },
            Stage::Writing => {
                if let Command::Run(_) = &command {
                    let m = manifest(&command);
                    (
                        Session { command, stage: Stage::Querying, config: None, path: None, described: true },
                        Action::Metadata { manifest_path: m },
                    )
                } else {
                    finish(command, Ok(()))
                }
            },
            Stage::Locating => {
                let engine = match event {
                    Event::Path(Ok(p)) => p,
                    _ => {
                        assert(false);
                        return finish(command, Ok(()));
                    },
                };
                let (program, args) = debug_args(config.unwrap(), engine);
                (
                    Session { command, stage: Stage::Launching, config: None, path: None, described },
                    Action::Exec { program, args },
                )
            },
            Stage::WorkingDir => {
                let cwd = match event {
                    Event::Path(Ok(p)) => p,
                    _ => {
                        assert(false);
                        return finish(command, Ok(()));
                    },
                };
                let out = join_path(cwd.as_str(), path.unwrap().as_str());
                Self::prepare_export(command, config.unwrap(), out)
            },
            Stage::Checking => {
                let exists = match event {
                    Event::Exists(b) => b,
                    _ => {
                        assert(false);
                        return finish(command, Ok(()));
                    },
                };
                let out = path.unwrap();
                if exists {
                    Self::launch_export(command, config.unwrap(), out)
                } else {
                    match parent(out.as_str()) {
                        Some(dir) => (
                            Session { command, stage: Stage::Creating, config, path: Some(out), described },
                            Action::CreateDirAll { path: dir },
                        ),
                        None => {
                            assert(false);
                            finish(command, Ok(()))
                        },
                    }
                }
            },
            Stage::Creating => Self::launch_export(command, config.unwrap(), path.unwrap()),
            Stage::Launching => finish(command, Ok(())),
            Stage::Finished => {
                assert(false);
                finish(command, Ok(()))
            },
        }
    }
}

/// A failure reported for any action ends the command at once, with that
/// failure unchanged.
pub proof fn failure_ends_the_command(s: Session, e: Event, next: Session, a: Action)
    requires
        s.steps_to(e, next, a),
        event_error(e) is Some,
    ensures
        a == Action::Finish(Err(event_error(e)->0)),
        next.stage == Stage::Finished,
{
}

/// The commands that only read the configuration and launch read it before
/// they run anything; where the root package has no `package.metadata.godot`
/// section, that reading ends the command with `MissingMetadata`, so no
/// program is ever run.
pub proof fn missing_section_stops_before_any_subprocess(s: Session, m: Metadata, next: Session, a: Action)
    requires
        s.command is Debug || s.command is Editor || s.command is Script,
        s.stage == Stage::Querying,
        m.wf(),
        m.root_package().godot is Missing,
        s.steps_to(Event::Metadata(Ok(m)), next, a),
    ensures
        opening(s.command) == Stage::Querying,
        a == Action::Finish(Err(Error::MissingMetadata)),
        next.stage == Stage::Finished,
{
}

/// Resolving the configuration twice from the same manifest and metadata
/// gives the same values: the same project path to make canonical, then the
/// same name, project, remote debug address and engine binary.
pub proof fn resolution_is_repeatable(
    s: Session,
    e: Event,
    n1: Session,
    a1: Action,
    n2: Session,
    a2: Action,
)
    requires
        s.stage == Stage::Querying,
        s.stage.accepts(e),
        s.steps_to(e, n1, a1),
        s.steps_to(e, n2, a2),
    ensures
        a1 is Finish <==> a2 is Finish,
        a1 matches Action::Finish(r1) ==> a2 matches Action::Finish(r2) && (r1 is Ok <==> r2 is Ok),
        a1 matches Action::Canonicalize { path: p1 } ==> (a2 matches Action::Canonicalize { path: p2 } && p1@ == p2@),
        a1 is Canonicalize ==> ({
            &&& n1.config matches Some(k1)
            &&& n2.config matches Some(k2)
            &&& k1.name@ == k2.name@
            &&& k1.project@ == k2.project@
            &&& k1.remote_debug == k2.remote_debug
            &&& k1.godot_executable == k2.godot_executable
        }),
{
}

/// Once the project path is made canonical, the configuration that a command
/// keeps for its later steps has that canonical path as its project, and
/// nothing else: no step goes on with the joined path it started from.
pub proof fn canonical_project_is_kept(s: Session, q: String, next: Session, a: Action)
    requires
        s.wf(),
        s.stage == Stage::Canonicalizing,
        s.steps_to(Event::Path(Ok(q)), next, a),
        a is Canonicalize || a is CurrentDir || a is Exists || (a is Exec && s.command is Debug),
    ensures
        next.config matches Some(k) && k.project == q,
{
}

/// The project path that the engine is given is the canonical path that
/// resolution produced, and a failure to produce it ends the command with
/// that failure.
pub proof fn project_is_the_canonical_path(s: Session, p: Result<String, Error>, next: Session, a: Action)
    requires
        s.wf(),
        s.stage == Stage::Canonicalizing,
        s.command is Editor || s.command is Script || (s.command is Run && s.described),
        s.steps_to(Event::Path(p), next, a),
    ensures
        p matches Err(e) ==> a == Action::Finish(Err(e)),
        p matches Ok(q) ==> (a matches Action::Exec { args, .. } && texts(args).contains(q@)),
{
    if let Ok(q) = p {
        let c = Config { project: q, ..s.config->0 };
        if s.command is Editor {
            assert(editor_args_spec(c)[2] == q@);
        } else {
            engine_args_start_with_project(c, None, seq![], None, false, q@, q@, q@, q@);
            let o = s.command;
            match o {
                Command::Run(r) => {
                    let v = run_args_spec(c, r.editor_pid, r.debug@, r.scene);
                    assert(v.take(2)[1] == v[1]);
                    assert(v[1] == q@);
                },
                Command::Script(t) => {
                    let v = script_args_spec(c, t.script@);
                    assert(v.take(2)[1] == v[1]);
                    assert(v[1] == q@);
                },
                _ => {},
            }
        }
    }
}

} // verus!
