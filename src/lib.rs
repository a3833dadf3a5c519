//! Build-and-launch orchestration for a game engine extension module: project
//! configuration, engine argument vectors, the extension descriptor and the
//! sequence of steps that each subcommand performs.

pub mod config;
pub mod error;
pub mod opt;
pub mod args;
pub mod paths;
pub mod descriptor;
pub mod session;
pub mod scaffold;
pub mod process;
