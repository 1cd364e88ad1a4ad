//! What a host type declares of itself to be usable from the virtual machine.

use crate::data::tyck::{TyckInfo, TyckInfoPool, TyckInfoView, TyckRef, TypeId};
use crate::util::mem::FatPointer;
use crate::util::void::Void;
use vstd::prelude::*;

verus! {

/// Whether a descriptor names the type with the identity `own`: it does
/// where it is `Plain` of that very identity, and never where it is a
/// container descriptor.
pub open spec fn plain_tyck(own: TypeId, tyck_info: TyckInfoView) -> bool {
    match tyck_info {
        TyckInfoView::Plain(type_id) => type_id == own,
        TyckInfoView::Container(_) => false,
    }
}

/// Capability of a host type `T`: its identity, its descriptor, its check
/// against a descriptor, its display name and what a value of it refers to.
pub trait StaticBase<T> {
    /// The identity of `T`.
    spec fn spec_type_id() -> TypeId;

    /// The display name of `T`.
    spec fn spec_display_name() -> Seq<char>;

    /// The identity of `T`.
    fn type_id() -> (id: TypeId)
        ensures
            id == Self::spec_type_id(),
    ;

    /// The handle of the descriptor of `T` in `pool`, which is interned
    /// there if it was not.
    fn tyck_info(pool: &mut TyckInfoPool) -> (handle: TyckRef)
        ensures
            handle.0 < final(pool)@.len(),
            final(pool)@[handle.0 as int] == TyckInfoView::Plain(Self::spec_type_id()),
            old(pool)@.contains(TyckInfoView::Plain(Self::spec_type_id())) ==> final(pool)@ == old(
                pool,
            )@,
            !old(pool)@.contains(TyckInfoView::Plain(Self::spec_type_id())) ==> final(pool)@ == old(
                pool,
            )@.push(TyckInfoView::Plain(Self::spec_type_id())),
    {
        pool.create_plain_type(Self::type_id())
    }

    /// Whether `tyck_info` describes `T`.
    fn tyck(tyck_info: &TyckInfo) -> (ok: bool)
        ensures
            ok == plain_tyck(Self::spec_type_id(), tyck_info@),
    {
        if let TyckInfo::Plain(type_id) = tyck_info {
            Self::type_id() == *type_id
        } else {
            false
        }
    }

    /// The display name of `T`.
    fn display_name() -> (name: String)
        ensures
            name@ == Self::spec_display_name(),
    ;

    /// The references that a collector has to follow from `vself`, or
    /// `None` where the value is a leaf that the collector does not look
    /// into. A host type is a leaf unless its capability says otherwise: a
    /// capability that does not define this function has no children.
    fn children(vself: &T) -> (children: Option<Vec<FatPointer>>)
        default_ensures
            children is None,
    {
        None
    }
}

/// The plain check against the descriptor of a type says yes for that very
/// type, no for a type with another identity, and no for every container
/// descriptor.
pub proof fn lemma_plain_tyck(own: TypeId, tyck_info: TyckInfoView)
    ensures
        plain_tyck(own, TyckInfoView::Plain(own)),
        tyck_info matches TyckInfoView::Plain(type_id) ==> (plain_tyck(own, tyck_info) <==> type_id
            == own),
        tyck_info is Container ==> !plain_tyck(own, tyck_info),
{
}

impl StaticBase<String> for Void {
    /// Strings are the first type that a virtual machine knows.
    open spec fn spec_type_id() -> TypeId {
        TypeId(0)
    }

    open spec fn spec_display_name() -> Seq<char> {
        "string"@
    }

    fn type_id() -> (id: TypeId) {
        TypeId(0)
    }

    fn display_name() -> (name: String) {
        "string".to_string()
    }
}

/// Marks the types that the virtual machine can hold: every host type with
/// a capability, and the machine's own value types.
pub trait VMType<T> {

}

impl<T> VMType<T> for Void where Void: StaticBase<T> {

}

impl VMType<i64> for Void {

}

impl VMType<char> for Void {

}

impl VMType<bool> for Void {

}

} // verus!
