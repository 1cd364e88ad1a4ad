//! The boundary between the virtual machine and the functions of the host.

pub mod async_fn;
