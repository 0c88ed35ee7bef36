//! Selects the text files of a directory tree and joins them into one
//! document: the rules that decide which paths are kept, and the resolution
//! of the configuration that drives them.

pub mod args;
pub mod cli;
pub mod config;
pub mod data;
pub mod file_processing;
pub mod gitignore;
pub mod number;
pub mod paths;
pub mod setup;
pub mod text;
