//! The shared store, as the pipeline sees it.

pub mod pool;
