//! The carrier of the host types' capabilities.

use vstd::prelude::*;

verus! {

/// The type that carries the capabilities of the host types: a host type `T`
/// is usable from the virtual machine where `Void` implements
/// `StaticBase<T>`. It holds nothing and is never passed around.
pub struct Void;

} // verus!
