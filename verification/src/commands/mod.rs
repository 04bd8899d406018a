//! The text and decisions of the `inspect` and `doctor` commands.

pub mod doctor;
pub mod inspect;
