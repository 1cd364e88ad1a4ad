//! Execution engines.

pub mod al31f;
