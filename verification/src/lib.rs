//! A data-driven filesystem builder: a nested tree of named entries is
//! materialized into a directory tree. Mapping nodes become directories,
//! text nodes become regular files, and tagged two-element lists become
//! symbolic links or executable scripts.
//!
//! The traversal is a step machine. The library validates every name,
//! dispatches on every node kind, sequences the filesystem operations and
//! selects the error to report; a thin unverified driver performs each
//! requested [`machine::Action`] and hands the outcome back as a
//! [`machine::Event`].

pub mod cursor;
pub mod errs;
pub mod laws;
pub mod machine;
pub mod names;
pub mod tree;
