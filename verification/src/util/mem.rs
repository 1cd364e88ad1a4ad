//! References to objects whose type has been erased.

use vstd::prelude::*;

verus! {

/// An erased reference to an object: the address of its data, and the
/// address of what describes its type.
#[derive(Clone, Copy, PartialEq, Eq, Structural, Debug, Hash)]
pub struct FatPointer {
    /// Address of the object.
    pub ptr: usize,
    /// Address of the object's dispatch table.
    pub trivia: usize,
}

} // verus!
