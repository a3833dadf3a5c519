use vstd::prelude::*;

verus! {

/// The top-level invocation: `cargo godot <command>`.
#[derive(Debug)]
pub enum Opt {
    Godot(Command),
}

/// One subcommand with its options.
#[derive(Debug)]
pub enum Command {
    /// Build the extension and write its descriptor.
    Build(Build),
    /// Create a new class source file.
    Create(Create),
    /// Launch the game under the debugger.
    Debug(Debug),
    /// Open the project in the engine's editor.
    Editor(Editor),
    /// Export the game.
    Export(Export),
    /// Create a new project in the current directory.
    Init(Init),
    /// Run the game.
    Run(Run),
    /// Execute a script with the engine.
    Script(Script),
}

#[derive(Debug)]
pub struct Build {
    /// Path to the manifest.
    pub manifest_path: String,
}

#[derive(Debug)]
pub struct Create {
    /// Engine class that the new class extends.
    pub class: String,
    /// Directory that receives the source file.
    pub dir: String,
    /// Name of the new class.
    pub name: String,
}

#[derive(Debug)]
pub struct Debug {
    /// Path to the manifest.
    pub manifest_path: String,
}

#[derive(Debug)]
pub struct Editor {
    /// Path to the manifest.
    pub manifest_path: String,
}

#[derive(Debug)]
pub struct Export {
    /// Path to the manifest.
    pub manifest_path: String,
    /// Build and export in release mode.
    pub release: bool,
    /// Export preset name.
    pub preset: String,
    /// Output path; `build/<name>` when absent.
    pub path: Option<String>,
}

#[derive(Debug)]
pub struct Init {
    /// Project name; the current directory's name when absent.
    pub name: Option<String>,
}

#[derive(Debug)]
pub struct Run {
    /// Path to the manifest.
    pub manifest_path: String,
    /// Process id of the editor that launched the game.
    pub editor_pid: Option<i32>,
    /// Scene to launch instead of the default one.
    pub scene: Option<String>,
    /// Debug overlays to switch on.
    pub debug: Vec<DebugType>,
}

/// A debug overlay of the engine.
#[derive(Debug, Clone, Copy, PartialEq, Eq, Structural)]
pub enum DebugType {
    Collisions,
    Navigation,
}

#[derive(Debug)]
pub struct Script {
    /// Path to the manifest.
    pub manifest_path: String,
    /// Path to the script.
    pub script: String,
}

} // verus!
