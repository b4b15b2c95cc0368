//! Sorting pictures into a date-structured directory tree.
//!
//! The library holds the decisions: which timestamp of a picture counts,
//! where a picture goes, what the transfer of each file does and which
//! directories a cleanup may remove. The caller performs the file system
//! work that those decisions name.
pub mod date_time;
pub mod resolver;
pub mod paths;
pub mod path_builder;
pub mod cli;
pub mod image;
pub mod scanner;
pub mod transfer;
pub mod shell;
pub mod progress;
