//! Lifecycle control for a single virtual machine that runs as an external
//! emulator process.
//!
//! The machine exists as two files: a disk image and a marker that records
//! the emulator's process id. This crate holds the decisions: the text of the
//! marker, the command lines of the external tools, and the controller that
//! says, step by step, what to do next for `create`, `start`, `stop` and
//! `destroy`. The caller performs each step and reports what came of it.
//! What the commands achieve is stated and proved against a model of the
//! files and processes.

pub mod decimal;
pub mod lifecycle;
pub mod marker;
pub mod model;
pub mod tools;
