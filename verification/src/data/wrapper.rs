//! The per-value envelope: a reference count, a packed access state and the
//! wrapped value itself.

use crate::data::traits::{plain_tyck, StaticBase};
use crate::data::tyck::{TyckInfo, TypeId};
use crate::util::void::Void;
use vstd::layout::align_of;
use vstd::prelude::*;

verus! {

/// The mark bit of the state byte, which lies outside the access state.
pub const GC_MARKED_MASK: u8 = 0b1_00_00000;

/// Bits of the state byte that hold the access state.
pub const GC_INFO_MASK: u8 = 0b0_00_11111;

/// The value may be read by the VM.
pub const GC_INFO_READ_MASK: u8 = 0b0_00_1_0_0_0_0;

/// The value may be written by the VM.
pub const GC_INFO_WRITE_MASK: u8 = 0b0_00_0_1_0_0_0;

/// The value may be moved out of its wrapper.
pub const GC_INFO_MOVE_MASK: u8 = 0b0_00_0_0_1_0_0;

/// The wrapper may be deleted by the VM.
pub const GC_INFO_DELETE_MASK: u8 = 0b0_00_0_0_0_1_0;

/// The VM has to reclaim the value eventually.
pub const GC_INFO_OWNED_MASK: u8 = 0b0_00_0_0_0_0_1;

/// Access state of a wrapped value. Each state grants a fixed subset of the
/// five rights read, write, move, delete and owned.
#[derive(Clone, Copy, PartialEq, Eq, Structural, Debug)]
pub enum GcInfo {
    /// The VM fully controls the value.
    Owned,
    /// The host lent the value immutably.
    SharedFromRust,
    /// The host lent the value mutably.
    MutSharedFromRust,
    /// The VM lent the value to the host immutably.
    SharedToRust,
    /// The VM lent the value to the host mutably.
    MutSharedToRust,
    /// The value was moved out; only the empty shell is left.
    MovedToRust,
}

/// The masks of the six states hold the five rights as the table of the
/// states says.
proof fn lemma_mask_table()
    by (bit_vector)
    ensures
        0b1_1_1_1_1u8 & 0b1_0_0_0_0u8 != 0,
        0b1_1_1_1_1u8 & 0b0_1_0_0_0u8 != 0,
        0b1_1_1_1_1u8 & 0b0_0_1_0_0u8 != 0,
        0b1_1_1_1_1u8 & 0b0_0_0_1_0u8 != 0,
        0b1_1_1_1_1u8 & 0b0_0_0_0_1u8 != 0,
        0b1_0_0_0_0u8 & 0b1_0_0_0_0u8 != 0,
        0b1_0_0_0_0u8 & 0b0_1_0_0_0u8 == 0,
        0b1_0_0_0_0u8 & 0b0_0_1_0_0u8 == 0,
        0b1_0_0_0_0u8 & 0b0_0_0_1_0u8 == 0,
        0b1_0_0_0_0u8 & 0b0_0_0_0_1u8 == 0,
        0b1_1_0_0_0u8 & 0b1_0_0_0_0u8 != 0,
        0b1_1_0_0_0u8 & 0b0_1_0_0_0u8 != 0,
        0b1_1_0_0_0u8 & 0b0_0_1_0_0u8 == 0,
        0b1_1_0_0_0u8 & 0b0_0_0_1_0u8 == 0,
        0b1_1_0_0_0u8 & 0b0_0_0_0_1u8 == 0,
        0b1_0_0_0_1u8 & 0b1_0_0_0_0u8 != 0,
        0b1_0_0_0_1u8 & 0b0_1_0_0_0u8 == 0,
        0b1_0_0_0_1u8 & 0b0_0_1_0_0u8 == 0,
        0b1_0_0_0_1u8 & 0b0_0_0_1_0u8 == 0,
        0b1_0_0_0_1u8 & 0b0_0_0_0_1u8 != 0,
        0b0_0_0_0_1u8 & 0b1_0_0_0_0u8 == 0,
        0b0_0_0_0_1u8 & 0b0_1_0_0_0u8 == 0,
        0b0_0_0_0_1u8 & 0b0_0_1_0_0u8 == 0,
        0b0_0_0_0_1u8 & 0b0_0_0_1_0u8 == 0,
        0b0_0_0_0_1u8 & 0b0_0_0_0_1u8 != 0,
        0b0_0_0_1_0u8 & 0b1_0_0_0_0u8 == 0,
        0b0_0_0_1_0u8 & 0b0_1_0_0_0u8 == 0,
        0b0_0_0_1_0u8 & 0b0_0_1_0_0u8 == 0,
        0b0_0_0_1_0u8 & 0b0_0_0_1_0u8 != 0,
        0b0_0_0_1_0u8 & 0b0_0_0_0_1u8 == 0,
{
}

/// The masks of the six states lie within the five state bits and leave the
/// mark bit alone.
proof fn lemma_mask_ranges()
    by (bit_vector)
    ensures
        0b1_1_1_1_1u8 & 0b0_00_11111u8 == 0b1_1_1_1_1u8,
        0b1_0_0_0_0u8 & 0b0_00_11111u8 == 0b1_0_0_0_0u8,
        0b1_1_0_0_0u8 & 0b0_00_11111u8 == 0b1_1_0_0_0u8,
        0b1_0_0_0_1u8 & 0b0_00_11111u8 == 0b1_0_0_0_1u8,
        0b0_0_0_0_1u8 & 0b0_00_11111u8 == 0b0_0_0_0_1u8,
        0b0_0_0_1_0u8 & 0b0_00_11111u8 == 0b0_0_0_1_0u8,
        0b1_1_1_1_1u8 & 0b1_00_00000u8 == 0,
        0b1_0_0_0_0u8 & 0b1_00_00000u8 == 0,
        0b1_1_0_0_0u8 & 0b1_00_00000u8 == 0,
        0b1_0_0_0_1u8 & 0b1_00_00000u8 == 0,
        0b0_0_0_0_1u8 & 0b1_00_00000u8 == 0,
        0b0_0_0_1_0u8 & 0b1_00_00000u8 == 0,
{
}

impl GcInfo {
    /// The five-bit mask that encodes this state.
    pub open spec fn spec_bits(self) -> u8 {
        match self {
            GcInfo::Owned => 0b1_1_1_1_1u8,
            GcInfo::SharedFromRust => 0b1_0_0_0_0u8,
            GcInfo::MutSharedFromRust => 0b1_1_0_0_0u8,
            GcInfo::SharedToRust => 0b1_0_0_0_1u8,
            GcInfo::MutSharedToRust => 0b0_0_0_0_1u8,
            GcInfo::MovedToRust => 0b0_0_0_1_0u8,
        }
    }

    /// The state that a byte encodes, if it encodes one: the byte is then
    /// exactly the state's mask.
    pub open spec fn spec_from_bits(bits: u8) -> Option<GcInfo> {
        if bits == 0b1_1_1_1_1u8 {
            Some(GcInfo::Owned)
        } else if bits == 0b1_0_0_0_0u8 {
            Some(GcInfo::SharedFromRust)
        } else if bits == 0b1_1_0_0_0u8 {
            Some(GcInfo::MutSharedFromRust)
        } else if bits == 0b1_0_0_0_1u8 {
            Some(GcInfo::SharedToRust)
        } else if bits == 0b0_0_0_0_1u8 {
            Some(GcInfo::MutSharedToRust)
        } else if bits == 0b0_0_0_1_0u8 {
            Some(GcInfo::MovedToRust)
        } else {
            None
        }
    }

    /// Whether the VM may read the value in this state.
    pub open spec fn readable(self) -> bool {
        self is Owned || self is SharedFromRust || self is MutSharedFromRust
            || self is SharedToRust
    }

    /// Whether the VM may write the value in this state.
    pub open spec fn writeable(self) -> bool {
        self is Owned || self is MutSharedFromRust
    }

    /// Whether the value may be moved out of its wrapper in this state.
    pub open spec fn movable(self) -> bool {
        self is Owned
    }

    /// Whether the VM may delete the wrapper in this state.
    pub open spec fn deletable(self) -> bool {
        self is Owned || self is MovedToRust
    }

    /// Whether the VM has to reclaim the value in this state.
    pub open spec fn vm_owned(self) -> bool {
        self is Owned || self is SharedToRust || self is MutSharedToRust
    }

    /// The five-bit mask that encodes this state.
    #[verifier::when_used_as_spec(spec_bits)]
    pub fn bits(self) -> (b: u8)
        ensures
            b == self.spec_bits(),
    {
        match self {
            GcInfo::Owned => 0b1_1_1_1_1u8,
            GcInfo::SharedFromRust => 0b1_0_0_0_0u8,
            GcInfo::MutSharedFromRust => 0b1_1_0_0_0u8,
            GcInfo::SharedToRust => 0b1_0_0_0_1u8,
            GcInfo::MutSharedToRust => 0b0_0_0_0_1u8,
            GcInfo::MovedToRust => 0b0_0_0_1_0u8,
        }
    }

    /// Reads a state byte: the state whose mask the byte is, or `None` for a
    /// byte that is the mask of no state.
    #[verifier::when_used_as_spec(spec_from_bits)]
    pub fn from_bits(bits: u8) -> (state: Option<GcInfo>)
        ensures
            state == GcInfo::spec_from_bits(bits),
    {
        if bits == 0b1_1_1_1_1u8 {
            Some(GcInfo::Owned)
        } else if bits == 0b1_0_0_0_0u8 {
            Some(GcInfo::SharedFromRust)
        } else if bits == 0b1_1_0_0_0u8 {
            Some(GcInfo::MutSharedFromRust)
        } else if bits == 0b1_0_0_0_1u8 {
            Some(GcInfo::SharedToRust)
        } else if bits == 0b0_0_0_0_1u8 {
            Some(GcInfo::MutSharedToRust)
        } else if bits == 0b0_0_0_1_0u8 {
            Some(GcInfo::MovedToRust)
        } else {
            None
        }
    }

    /// Tests the read bit of the state's mask.
    #[inline(always)]
    #[verifier::when_used_as_spec(readable)]
    pub fn is_readable(self) -> (r: bool)
        ensures
            r == self.readable(),
            r == (self.spec_bits() & GC_INFO_READ_MASK != 0),
    {
        proof {
            lemma_mask_table();
        }
        self.bits() & GC_INFO_READ_MASK != 0
    }

    /// Tests the write bit of the state's mask.
    #[inline(always)]
    #[verifier::when_used_as_spec(writeable)]
    pub fn is_writeable(self) -> (r: bool)
        ensures
            r == self.writeable(),
            r == (self.spec_bits() & GC_INFO_WRITE_MASK != 0),
    {
        proof {
            lemma_mask_table();
        }
        self.bits() & GC_INFO_WRITE_MASK != 0
    }

    /// Tests the move bit of the state's mask.
    #[inline(always)]
    #[verifier::when_used_as_spec(movable)]
    pub fn is_movable(self) -> (r: bool)
        ensures
            r == self.movable(),
            r == (self.spec_bits() & GC_INFO_MOVE_MASK != 0),
    {
        proof {
            lemma_mask_table();
        }
        self.bits() & GC_INFO_MOVE_MASK != 0
    }

    /// Tests the delete bit of the state's mask.
    #[inline(always)]
    #[verifier::when_used_as_spec(deletable)]
    pub fn is_deletable(self) -> (r: bool)
        ensures
            r == self.deletable(),
            r == (self.spec_bits() & GC_INFO_DELETE_MASK != 0),
    {
        proof {
            lemma_mask_table();
        }
        self.bits() & GC_INFO_DELETE_MASK != 0
    }

    /// Tests the owned bit of the state's mask.
    #[inline(always)]
    #[verifier::when_used_as_spec(vm_owned)]
    pub fn is_owned(self) -> (r: bool)
        ensures
            r == self.vm_owned(),
            r == (self.spec_bits() & GC_INFO_OWNED_MASK != 0),
    {
        proof {
            lemma_mask_table();
        }
        self.bits() & GC_INFO_OWNED_MASK != 0
    }

    /// A state is read back from its own mask, and a byte that reads as a
    /// state is that state's mask.
    pub proof fn lemma_bits_round_trip(state: GcInfo, bits: u8)
        ensures
            GcInfo::spec_from_bits(state.spec_bits()) == Some(state),
            GcInfo::spec_from_bits(bits) == Some(state) ==> bits == state.spec_bits(),
            state.spec_bits() & GC_INFO_MASK == state.spec_bits(),
            state.spec_bits() & GC_MARKED_MASK == 0,
    {
        lemma_mask_ranges();
    }
}

/// Offset of the reference count in a wrapper.
pub const REFCOUNT_OFFSET: usize = 0;

/// Offset of the state byte in a wrapper.
pub const GC_INFO_OFFSET: usize = 4;

/// Offset of the byte that records where the data field lies.
pub const DATA_OFFSET_OFFSET: usize = 5;

/// Size of the header: the three fields that every wrapper starts with.
pub const HEADER_SIZE: usize = 6;

/// Where the data field of a wrapper lies when it has to be aligned to
/// `align`: at the first multiple of `align` behind the header.
pub open spec fn spec_data_field_offset(align: nat) -> nat {
    if align == 0 {
        6
    } else {
        ((5 + align) / align) * align
    }
}

/// The alignment of the data field of a wrapper of `T`, which holds either a
/// `T` or the address of one.
pub open spec fn data_align<T>() -> nat {
    if align_of::<T>() >= align_of::<usize>() {
        align_of::<T>()
    } else {
        align_of::<usize>()
    }
}

/// Where the data field of a wrapper lies when it has to be aligned to
/// `align`.
#[verifier::when_used_as_spec(spec_data_field_offset_usize)]
pub fn data_field_offset(align: usize) -> (offset: usize)
    requires
        align > 0,
    ensures
        offset == spec_data_field_offset(align as nat),
{
    if align >= HEADER_SIZE {
        proof {
            lemma_data_field_offset(align as nat);
        }
        align
    } else {
        let units: usize = (HEADER_SIZE - 1 + align) / align;
        assert(units <= 6 && units * align <= 10) by (nonlinear_arith)
            requires
                0 < align < 6,
                units == (5 + align) / (align as int),
        ;
        units * align
    }
}

/// `spec_data_field_offset` on machine integers.
pub open spec fn spec_data_field_offset_usize(align: usize) -> usize {
    spec_data_field_offset(align as nat) as usize
}

/// The data field lies behind the header, at a multiple of its alignment,
/// and at the first such place.
pub proof fn lemma_data_field_offset(align: nat)
    requires
        align > 0,
    ensures
        spec_data_field_offset(align) >= 6,
        spec_data_field_offset(align) % align == 0,
        spec_data_field_offset(align) < 6 + align,
        align >= 6 ==> spec_data_field_offset(align) == align,
{
    let units = (5 + align) / align;
    assert(units * align <= 5 + align && 5 + align < units * align + align) by (nonlinear_arith)
        requires
            align > 0,
            units == (5 + align) / align,
    ;
    assert((units * align) % align == 0) by (nonlinear_arith)
        requires
            align > 0,
    ;
    if align >= 6 {
        assert(units == 1) by (nonlinear_arith)
            requires
                align >= 6,
                units == (5 + align) / align,
        ;
    }
}

/// Where the fields of a wrapper lie, in bytes from its start, when they
/// are laid out in the order of their declaration, each at the first place
/// that its alignment allows. This is the layout through which a collector
/// reaches a wrapper whose element type it does not know.
#[derive(Clone, Copy, PartialEq, Eq, Structural, Debug)]
pub struct WrapperLayout {
    /// Offset of the reference count.
    pub refcount: usize,
    /// Offset of the state byte.
    pub gc_info: usize,
    /// Offset of the byte that records the offset of the data field.
    pub data_offset: usize,
    /// Offset of the data field.
    pub data: usize,
}

/// What a wrapper holds in its data field.
pub enum WrapperData<T> {
    /// The address of a value that the host keeps.
    Ptr(usize),
    /// The value itself.
    Owned(T),
    /// Nothing: the value was moved out.
    Vacant,
}

/// The envelope of one host value that the VM can see.
pub struct Wrapper<T> {
    /// How many references the VM holds.
    pub refcount: u32,
    /// The state byte: the mask of a `GcInfo`.
    pub gc_info: u8,
    /// The offset of the data field, as far as it fits into a byte.
    pub data_offset: u8,
    /// The value, or where it is.
    pub data: WrapperData<T>,
}

impl<T> Wrapper<T> {
    /// The state that the state byte encodes, if it encodes one.
    pub open spec fn state(&self) -> Option<GcInfo> {
        GcInfo::spec_from_bits(self.gc_info)
    }

    /// The byte that a wrapper of `T` records for its data field: the
    /// field's offset, reduced to the byte's range.
    pub open spec fn spec_recorded_offset() -> u8 {
        (spec_data_field_offset(data_align::<T>()) % 256) as u8
    }

    /// A wrapper is well formed where its state byte encodes a state, its
    /// offset byte records the data field of its element type, and its data
    /// field holds what the state says: a value that can be moved out is
    /// there, a value that was moved out is not, and a value that the host
    /// lent is an address.
    pub open spec fn wf(&self) -> bool {
        &&& self.state() is Some
        &&& self.data_offset == Self::spec_recorded_offset()
        &&& self.state() == Some(GcInfo::Owned) ==> self.data is Owned
        &&& self.state() == Some(GcInfo::MovedToRust) ==> self.data is Vacant
        &&& self.state() == Some(GcInfo::SharedFromRust) ==> self.data is Ptr
        &&& self.state() == Some(GcInfo::MutSharedFromRust) ==> self.data is Ptr
    }

    /// The alignment of the data field.
    fn data_alignment() -> (align: usize)
        ensures
            align > 0,
            align as nat == data_align::<T>(),
    {
        broadcast use vstd::layout::align_nonzero;

        let own: usize = core::mem::align_of::<T>();
        let address: usize = core::mem::align_of::<usize>();
        if own >= address {
            own
        } else {
            address
        }
    }

    /// The byte that a wrapper of `T` records for its data field.
    fn recorded_offset() -> (offset: u8)
        ensures
            offset == Self::spec_recorded_offset(),
    {
        let offset: usize = data_field_offset(Self::data_alignment());
        (offset % 256) as u8
    }

    /// Where the fields of this wrapper lie. The header is the same for
    /// every element type; the data field follows it at the first place
    /// that suits both an address and a `T`.
    pub fn layout(&self) -> (layout: WrapperLayout)
        ensures
            layout.refcount == 0,
            layout.gc_info == 4,
            layout.data_offset == 5,
            layout.data == spec_data_field_offset(data_align::<T>()),
            layout.data >= 6,
            layout.data as nat % data_align::<T>() == 0,
    {
        let align: usize = Self::data_alignment();
        proof {
            lemma_data_field_offset(align as nat);
        }
        WrapperLayout {
            refcount: REFCOUNT_OFFSET,
            gc_info: GC_INFO_OFFSET,
            data_offset: DATA_OFFSET_OFFSET,
            data: data_field_offset(align),
        }
    }

    /// Wraps a value that the VM owns from now on: no reference is counted
    /// yet, and the value lies in the wrapper.
    pub fn new_owned(data: T) -> (wrapper: Self)
        ensures
            wrapper.refcount == 0,
            wrapper.gc_info == GcInfo::Owned.spec_bits(),
            wrapper.state() == Some(GcInfo::Owned),
            wrapper.data_offset == Self::spec_recorded_offset(),
            wrapper.data == WrapperData::Owned(data),
            wrapper.wf(),
    {
        let mut ret: Wrapper<T> = Self {
            refcount: 0,
            gc_info: GcInfo::Owned.bits(),
            data_offset: 0,
            data: WrapperData::Owned(data),
        };
        ret.data_offset = Self::recorded_offset();
        ret
    }

    /// Wraps a value that the host lends for reading and keeps at the
    /// address `ptr`. The host's reference is counted.
    pub fn new_ref(ptr: usize) -> (wrapper: Self)
        ensures
            wrapper.refcount == 1,
            wrapper.gc_info == GcInfo::SharedFromRust.spec_bits(),
            wrapper.state() == Some(GcInfo::SharedFromRust),
            wrapper.data_offset == Self::spec_recorded_offset(),
            wrapper.data == WrapperData::<T>::Ptr(ptr),
            wrapper.wf(),
    {
        let mut ret: Wrapper<T> = Self {
            refcount: 1,
            gc_info: GcInfo::SharedFromRust.bits(),
            data_offset: 0,
            data: WrapperData::Ptr(ptr),
        };
        ret.data_offset = Self::recorded_offset();
        ret
    }

    /// Wraps a value that the host lends for reading and writing and keeps
    /// at the address `ptr`. The host's reference is counted.
    pub fn new_mut_ref(ptr: usize) -> (wrapper: Self)
        ensures
            wrapper.refcount == 1,
            wrapper.gc_info == GcInfo::MutSharedFromRust.spec_bits(),
            wrapper.state() == Some(GcInfo::MutSharedFromRust),
            wrapper.data_offset == Self::spec_recorded_offset(),
            wrapper.data == WrapperData::<T>::Ptr(ptr),
            wrapper.wf(),
    {
        let mut ret: Wrapper<T> = Self {
            refcount: 1,
            gc_info: GcInfo::MutSharedFromRust.bits(),
            data_offset: 0,
            data: WrapperData::Ptr(ptr),
        };
        ret.data_offset = Self::recorded_offset();
        ret
    }

    /// The header of a wrapper is laid out alike for every element type, and
    /// the byte at offset 5 of a well-formed wrapper records where its data
    /// field lies, for every element type whose data field lies within the
    /// first 256 bytes.
    pub proof fn lemma_layout(wrapper: Self)
        requires
            wrapper.wf(),
            spec_data_field_offset(data_align::<T>()) < 256,
        ensures
            REFCOUNT_OFFSET == 0,
            GC_INFO_OFFSET == 4,
            DATA_OFFSET_OFFSET == 5,
            wrapper.data_offset as nat == spec_data_field_offset(data_align::<T>()),
            wrapper.data_offset >= HEADER_SIZE,
            wrapper.data_offset as nat % data_align::<T>() == 0,
    {
        broadcast use vstd::layout::align_nonzero;

        lemma_data_field_offset(data_align::<T>());
    }
}

/// What the engine can do with a wrapper without knowing its element type
/// beyond `Inner`, the type of what a move hands out.
pub trait DynBase {
    /// The type of the wrapped value.
    type Inner;

    /// The identity of the wrapped type.
    spec fn spec_dyn_type_id(&self) -> TypeId;

    /// The display name of the wrapped type.
    spec fn spec_dyn_type_name(&self) -> Seq<char>;

    /// The access state, if the state byte encodes one.
    spec fn spec_state(&self) -> Option<GcInfo>;

    /// The value that lies in the wrapper, if one does.
    spec fn spec_inner(&self) -> Option<Self::Inner>;

    /// The identity of the wrapped type.
    fn dyn_type_id(&self) -> (id: TypeId)
        ensures
            id == self.spec_dyn_type_id(),
    ;

    /// The display name of the wrapped type.
    fn dyn_type_name(&self) -> (name: String)
        ensures
            name@ == self.spec_dyn_type_name(),
    ;

    /// Whether `tyck_info` describes the wrapped type.
    fn dyn_tyck(&self, tyck_info: &TyckInfo) -> (ok: bool)
        ensures
            ok == plain_tyck(self.spec_dyn_type_id(), tyck_info@),
    ;

    /// Moves the value out into `out`, which is declared to take a value of
    /// the type `type_id`, and leaves the wrapper an empty shell. The
    /// declared type has to be the wrapped one, and the state has to allow
    /// the move.
    fn move_out_ck(&mut self, out: &mut Option<Self::Inner>, type_id: TypeId)
        requires
            type_id == old(self).spec_dyn_type_id(),
            old(self).spec_state() matches Some(state) && state.movable(),
            old(self).spec_inner() is Some,
        ensures
            *final(out) == old(self).spec_inner(),
            final(self).spec_state() == Some(GcInfo::MovedToRust),
            final(self).spec_state() matches Some(state) && !state.movable(),
            final(self).spec_inner() is None,
            final(self).spec_dyn_type_id() == old(self).spec_dyn_type_id(),
    ;

    /// Moves the value out into `out` and leaves the wrapper an empty shell,
    /// for a caller that has checked the destination's type before. The
    /// state has to allow the move.
    fn move_out(&mut self, out: &mut Option<Self::Inner>)
        requires
            old(self).spec_state() matches Some(state) && state.movable(),
            old(self).spec_inner() is Some,
        ensures
            *final(out) == old(self).spec_inner(),
            final(self).spec_state() == Some(GcInfo::MovedToRust),
            final(self).spec_state() matches Some(state) && !state.movable(),
            final(self).spec_inner() is None,
            final(self).spec_dyn_type_id() == old(self).spec_dyn_type_id(),
    ;
}

impl<T> DynBase for Wrapper<T> where Void: StaticBase<T> {
    type Inner = T;

    open spec fn spec_dyn_type_id(&self) -> TypeId {
        <Void as StaticBase<T>>::spec_type_id()
    }

    open spec fn spec_dyn_type_name(&self) -> Seq<char> {
        <Void as StaticBase<T>>::spec_display_name()
    }

    open spec fn spec_state(&self) -> Option<GcInfo> {
        self.state()
    }

    open spec fn spec_inner(&self) -> Option<T> {
        match self.data {
            WrapperData::Owned(value) => Some(value),
            _ => None,
        }
    }

    fn dyn_type_id(&self) -> (id: TypeId) {
        <Void as StaticBase<T>>::type_id()
    }

    fn dyn_type_name(&self) -> (name: String) {
        <Void as StaticBase<T>>::display_name()
    }

    fn dyn_tyck(&self, tyck_info: &TyckInfo) -> (ok: bool) {
        <Void as StaticBase<T>>::tyck(tyck_info)
    }

    fn move_out_ck(&mut self, out: &mut Option<T>, type_id: TypeId)
        ensures
            final(self).refcount == old(self).refcount,
            final(self).data_offset == old(self).data_offset,
            final(self).gc_info == GcInfo::MovedToRust.spec_bits(),
            final(self).data is Vacant,
            old(self).wf() ==> final(self).wf(),
    {
        self.move_out(out)
    }

    fn move_out(&mut self, out: &mut Option<T>)
        ensures
            final(self).refcount == old(self).refcount,
            final(self).data_offset == old(self).data_offset,
            final(self).gc_info == GcInfo::MovedToRust.spec_bits(),
            final(self).data is Vacant,
            old(self).wf() ==> final(self).wf(),
    {
        let mut data: WrapperData<T> = WrapperData::Vacant;
        core::mem::swap(&mut data, &mut self.data);
        match data {
            WrapperData::Owned(value) => {
                *out = Some(value);
            },
            _ => {
                assert(false);
            },
        }
        self.gc_info = GcInfo::MovedToRust.bits();
    }
}

} // verus!
