//! The register-based engine.

pub mod allocator;
