//! Values of the virtual machine.

use crate::util::mem::FatPointer;
use vstd::prelude::*;

verus! {

/// A value of the virtual machine that stands for a wrapped object: the
/// erased reference to the object's wrapper. Two values are the same object
/// where they are equal.
#[derive(Clone, Copy, PartialEq, Eq, Structural, Debug, Hash)]
pub struct Value {
    /// The erased reference to the wrapper.
    pub ptr: FatPointer,
}

} // verus!
