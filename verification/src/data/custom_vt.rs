//! Dispatch tables of container types.

use crate::data::tyck::{ContainerTyckInfo, ContainerTyckInfoView, TyckInfo, TyckInfoView, TyckRef};
use vstd::prelude::*;

verus! {

/// Bit of a value's tag that marks a container.
pub const CONTAINER_MASK: u8 = 0b00000_010;

/// Whether the descriptor of a type parameter fits the one that a container
/// type declares in its place. No rule has been laid down for parameters
/// yet: every pair fits.
pub open spec fn param_compatible(given: TyckRef, declared: TyckRef) -> bool {
    true
}

/// Whether a descriptor fits the container type with the descriptor `own`:
/// it is a container descriptor of the same container type with as many
/// parameters, each of which fits.
pub open spec fn container_compatible(own: ContainerTyckInfoView, tyck_info: TyckInfoView) -> bool {
    match tyck_info {
        TyckInfoView::Plain(_) => false,
        TyckInfoView::Container(given) => {
            &&& given.type_id == own.type_id
            &&& given.params.len() == own.params.len()
            &&& forall|k: int|
                0 <= k < given.params.len() ==> param_compatible(
                    #[trigger] given.params[k],
                    own.params[k],
                )
        },
    }
}

/// As long as every pair of parameters fits, a descriptor fits a container
/// type exactly where it is a container descriptor with the same type
/// identity and the same number of parameters, whatever the parameters are.
pub proof fn lemma_container_compatible(own: ContainerTyckInfoView, tyck_info: TyckInfoView)
    ensures
        tyck_info is Plain ==> !container_compatible(own, tyck_info),
        tyck_info matches TyckInfoView::Container(given) ==> (container_compatible(own, tyck_info)
            <==> given.type_id == own.type_id && given.params.len() == own.params.len()),
{
}

/// Decides whether one pair of parameters fits.
fn param_tyck(given: TyckRef, declared: TyckRef) -> (ok: bool)
    ensures
        ok == param_compatible(given, declared),
{
    true
}

/// The dispatch table of one container type. There is one table for each
/// container type; `M`, `C` and `D` are the types of the three functions
/// that the host supplies for it.
pub struct ContainerVT<M, C, D> {
    /// Descriptor of the container type.
    pub tyck_info: ContainerTyckInfo,
    /// Display name of the container type.
    pub display_name: String,
    /// Moves a container's value out of the virtual machine.
    pub move_out_fn: M,
    /// Enumerates what a container refers to.
    pub children_fn: C,
    /// Destroys a container.
    pub drop_fn: D,
}

impl<M, C, D> ContainerVT<M, C, D> {
    /// Makes the table of a container type from its descriptor, its display
    /// name and its three functions.
    pub fn new(
        tyck_info: ContainerTyckInfo,
        display_name: &str,
        move_out_fn: M,
        children_fn: C,
        drop_fn: D,
    ) -> (vt: Self)
        ensures
            vt.tyck_info == tyck_info,
            vt.display_name@ == display_name@,
            vt.move_out_fn == move_out_fn,
            vt.children_fn == children_fn,
            vt.drop_fn == drop_fn,
    {
        Self {
            tyck_info,
            display_name: display_name.to_string(),
            move_out_fn,
            children_fn,
            drop_fn,
        }
    }

    /// Checks a descriptor against this container type.
    pub fn container_tyck(&self, tyck_info: &TyckInfo) -> (ok: bool)
        ensures
            ok == container_compatible(self.tyck_info@, tyck_info@),
            tyck_info@ is Plain ==> !ok,
            tyck_info@ matches TyckInfoView::Container(given) ==> (ok <==> given.type_id
                == self.tyck_info.type_id && given.params.len() == self.tyck_info.params@.len()),
    {
        if let TyckInfo::Container(given) = tyck_info {
            if given.type_id != self.tyck_info.type_id {
                return false;
            }
            if given.params.len() != self.tyck_info.params.len() {
                return false;
            }
            let mut i: usize = 0;
            while i < given.params.len()
                invariant
                    i <= given.params.len(),
                    given.params.len() == self.tyck_info.params.len(),
                    forall|k: int|
                        0 <= k < i ==> param_compatible(
                            #[trigger] given.params@[k],
                            self.tyck_info.params@[k],
                        ),
                decreases given.params.len() - i,
            {
                if !param_tyck(given.params[i], self.tyck_info.params[i]) {
                    return false;
                }
                i += 1;
            }
            true
        } else {
            false
        }
    }
}

/// A reference to one container: where its data lies, and where the table
/// of its container type lies. It owns neither.
#[derive(Clone, Copy, PartialEq, Eq, Structural, Debug)]
pub struct ContainerPtr {
    /// Address of the container's data.
    pub data_ptr: usize,
    /// Address of the container type's dispatch table.
    pub vt: usize,
}

} // verus!
