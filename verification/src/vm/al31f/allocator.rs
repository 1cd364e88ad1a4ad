//! The interface between the engine and its memory manager.

use crate::util::mem::FatPointer;
use vstd::prelude::*;

verus! {

/// A memory manager of the engine. How it collects is its own business; the
/// engine relies on what it keeps track of. Every address and reference
/// handed to it has to stay valid for as long as the call lasts.
pub trait Alloc {
    /// The addresses of the stacks whose values the manager takes as roots.
    spec fn stacks(&self) -> Set<usize>;

    /// The objects that the manager keeps track of.
    spec fn managed(&self) -> Set<FatPointer>;

    /// Whether the manager may collect.
    spec fn gc_allowed(&self) -> bool;

    /// Puts the stack at the address `stack` under the manager's care.
    fn add_stack(&mut self, stack: usize)
        ensures
            final(self).stacks() == old(self).stacks().insert(stack),
            final(self).managed() == old(self).managed(),
            final(self).gc_allowed() == old(self).gc_allowed(),
    ;

    /// Takes the stack at the address `stack` out of the manager's care.
    fn remove_stack(&mut self, stack: usize)
        ensures
            final(self).stacks() == old(self).stacks().remove(stack),
            final(self).managed() == old(self).managed(),
            final(self).gc_allowed() == old(self).gc_allowed(),
    ;

    /// Makes the manager keep track of the object `data`.
    fn add_managed(&mut self, data: FatPointer)
        ensures
            final(self).managed() == old(self).managed().insert(data),
            final(self).stacks() == old(self).stacks(),
            final(self).gc_allowed() == old(self).gc_allowed(),
    ;

    /// Tells the manager that the object `data` has just been stored into a
    /// container and is in use. What is kept track of does not change.
    fn mark_object(&mut self, data: FatPointer)
        ensures
            final(self).managed() == old(self).managed(),
            final(self).stacks() == old(self).stacks(),
            final(self).gc_allowed() == old(self).gc_allowed(),
    ;

    /// Runs one collection. It frees objects that are kept track of and
    /// nothing else, and frees nothing while collection is not allowed.
    fn collect(&mut self)
        ensures
            final(self).managed().subset_of(old(self).managed()),
            !old(self).gc_allowed() ==> final(self).managed() == old(self).managed(),
            final(self).stacks() == old(self).stacks(),
            final(self).gc_allowed() == old(self).gc_allowed(),
    ;

    /// Allows or forbids collection.
    fn set_gc_allowed(&mut self, allowed: bool)
        ensures
            final(self).gc_allowed() == allowed,
            final(self).managed() == old(self).managed(),
            final(self).stacks() == old(self).stacks(),
    ;
}

} // verus!
