//! A library for finding software project roots in a directory tree and
//! planning the cleanup of their build artifacts.
//!
//! The directory tree is modelled as a value ([`fs_tree::DirEntry`]); the
//! scanner, the classifier, the interpretation of user selections and the
//! planning of cleanup batches are all verified against that model. Reading
//! the real filesystem, deleting directories and spawning the Rust clean
//! subcommand are left to the surrounding binary.

pub mod cleanup;
pub mod display;
pub mod fs_tree;
pub mod input;
pub mod project;
pub mod scan;
