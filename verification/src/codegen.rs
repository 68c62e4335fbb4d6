//! The program text that reads the configuration of one program: its
//! types, and the functions that take its configuration from files, from
//! the environment and from the command line.

pub mod visitor;
pub mod fields;
pub mod program;

pub use crate::codegen::program::generate_code;
