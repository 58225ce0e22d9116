//! Loading a dataset into its table: the statements, the run that issues
//! them, and the watcher that triggers it.

pub mod attempt;
pub mod directory_watcher;
pub mod handlers;
pub mod kafka_utils;
pub mod run;
