//! Planning and state logic for a tool that builds a Rust project on a
//! remote machine over SSH and fetches the resulting executable.

pub mod text;
pub mod target;
pub mod plan;
pub mod session;
pub mod archive;
