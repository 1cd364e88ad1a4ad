//! Runtime representation of values that the host lends to, or hands over to,
//! the virtual machine.

pub mod custom_vt;
pub mod traits;
pub mod tyck;
pub mod value;
pub mod wrapper;
