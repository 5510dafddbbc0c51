//! Bookkeeping for interpreter installations: which versions are installed,
//! and which projects were worked on under each of them.
//!
//! The library holds the rules (how a version is read from a file name, how a
//! project log grows, what each command reports, how the table view reacts to
//! input) and leaves reading directories, files and the terminal to its
//! caller.

pub mod text;
pub mod scanner;
pub mod store;
pub mod report;
pub mod table;
pub mod clock;
