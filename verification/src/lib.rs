//! Backend decisions of a PDF presenter shell.
//!
//! The shell shows a PDF on a second display while the first one hosts the
//! controls. This library holds what the shell decides: which path is the
//! current one, what a finished file read amounts to, where the presenter
//! window goes, and in which order the windowing host is asked to act. The
//! shell itself performs the reads and the window operations and reports
//! what came of them.

pub mod error;
pub mod path_store;
pub mod file_reader;
pub mod monitor;
pub mod presenter;
