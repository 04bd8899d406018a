//! The command line: global flags and the `build`, `inspect` and `doctor`
//! commands with their arguments.

use vstd::prelude::*;

verus! {

/// The parsed command line.
#[derive(Debug, Clone)]
pub struct Cli {
    /// How many times `-v` was given.
    pub verbose: u8,
    /// Whether `-q` was given.
    pub quiet: bool,
    pub command: Command,
}

/// The commands.
#[derive(Debug, Clone)]
pub enum Command {
    /// Build a self-extracting binary from a uv project.
    Build(BuildArgs),
    /// Inspect a project and show the planned build inputs.
    Inspect(InspectArgs),
    /// Check whether required tools are present before a build.
    Doctor(DoctorArgs),
}

/// Arguments of `build`.
#[derive(Debug, Clone)]
pub struct BuildArgs {
    /// Path to the uv project root (default `.`).
    pub project: String,
    /// Where to write the final executable.
    pub output: Option<String>,
    /// Where build artifacts are kept.
    pub work_dir: Option<String>,
    /// Explicit entrypoint or script name to package.
    pub entrypoint: Option<String>,
    /// Python version request that overrides the project's.
    pub python: Option<String>,
}

/// Arguments of `inspect`.
#[derive(Debug, Clone)]
pub struct InspectArgs {
    /// Path to the uv project root (default `.`).
    pub project: String,
    /// Explicit entrypoint or script name to plan for.
    pub entrypoint: Option<String>,
    /// Python version request that overrides the project's.
    pub python: Option<String>,
}

/// Arguments of `doctor`.
#[derive(Debug, Clone)]
pub struct DoctorArgs {
    /// Path to the uv project root (default `.`).
    pub project: String,
}

} // verus!
