//! Verified core of a self-extracting binary packer for uv-managed Python
//! projects: the bundle format, project metadata resolution, build planning
//! and the runner's cache decisions.

pub mod sfx;
pub mod text;
pub mod codec;
pub mod runner;
pub mod packer;
pub mod scripts;
pub mod project;
pub mod plan;
pub mod commands;
pub mod cli;
pub mod logging;
pub mod staging;
