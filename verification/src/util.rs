//! Scheduling support shared by the fibers of one virtual machine, and small
//! types that the rest of the crate builds on.

pub mod mem;
pub mod serializer;
pub mod void;
