//! Validation of a program's configuration specification, and the rules by
//! which values from configuration files, the environment and the command
//! line are combined into the final configuration.

pub mod text;
pub mod views;
pub mod span;
pub mod ident;
pub mod debconf;
pub mod config;
pub mod diagnostic;
pub mod value;
pub mod layer;
pub mod segment;
pub mod usage;
pub mod args;
pub mod error;
pub mod scan;
pub mod env;
pub mod document;
pub mod assemble;
pub mod codegen;
pub mod manifest;
pub mod script;
pub mod man;
