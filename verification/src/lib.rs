//! A launcher for the manager of shadowsocks servers.
//!
//! [`cli`] declares the command line options of the manager, which [`options`] lists as values,
//! and [`arguments`] reads what was given. [`config`] puts it into a configuration. [`launch`]
//! decides, step by step, what to do to bring a manager up: it hands out actions and takes in
//! what came of them, and leaves it to its caller to perform them.
//!
//! What holds of all this is stated in [`listing`], [`numbering`] and [`lookups`] (the options),
//! [`readings`] and [`laws`] (command lines and configurations), [`course`] (what is done, and in
//! what order), [`outcomes`] and [`results`] (what a launch comes to).

pub mod arguments;
pub mod cli;
pub mod config;
pub mod course;
pub mod error;
pub mod help;
pub mod launch;
pub mod laws;
pub mod listing;
pub mod lookups;
pub mod numbering;
pub mod options;
pub mod outcomes;
pub mod outside;
pub mod readings;
pub mod results;
pub mod target;
pub mod vparser;
