//! The validated description of the datasets and of the server's security.

pub mod cli;
pub mod dataset;
pub mod security;
