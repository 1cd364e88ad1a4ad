//! Object model and cooperative-scheduling core of an embeddable scripting
//! virtual machine: value wrappers with their access states, dynamic type
//! descriptors, container dispatch tables and the permit protocol that lets
//! many fibers share one VM context.

pub mod data;
pub mod ffi;
pub mod util;
pub mod vm;
