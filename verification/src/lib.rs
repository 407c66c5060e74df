//! Request processing, configuration checks and protocol decisions of the
//! cognitord daemon, with their contracts.
pub mod config;
pub mod outside;
pub mod process;
pub mod protocol;
pub mod text;
pub mod tokens;
