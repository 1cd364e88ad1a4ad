//! Type descriptors: what a value's type is checked against at a call
//! boundary.

use vstd::prelude::*;

verus! {

/// Identity of a host type: a number that the host gives to each of its
/// types once and for all, different types getting different numbers.
#[derive(Clone, Copy, PartialEq, Eq, Structural, Debug, Hash)]
pub struct TypeId(pub u64);

/// Handle of a descriptor that a pool has interned.
#[derive(Clone, Copy, PartialEq, Eq, Structural, Debug, Hash)]
pub struct TyckRef(pub usize);

/// Descriptor of a parametrized type: the identity of the container type,
/// and the descriptors of its type parameters in their order.
pub struct ContainerTyckInfo {
    /// Identity of the container type itself.
    pub type_id: TypeId,
    /// The type parameters' descriptors.
    pub params: Vec<TyckRef>,
}

/// A type descriptor.
pub enum TyckInfo {
    /// A type without parameters, known by its identity.
    Plain(TypeId),
    /// A container type with its parameters.
    Container(ContainerTyckInfo),
}

/// What a container descriptor says.
pub struct ContainerTyckInfoView {
    /// Identity of the container type itself.
    pub type_id: TypeId,
    /// The type parameters' descriptors.
    pub params: Seq<TyckRef>,
}

/// What a descriptor says.
pub enum TyckInfoView {
    /// A type without parameters.
    Plain(TypeId),
    /// A container type with its parameters.
    Container(ContainerTyckInfoView),
}

impl View for ContainerTyckInfo {
    type V = ContainerTyckInfoView;

    open spec fn view(&self) -> ContainerTyckInfoView {
        ContainerTyckInfoView { type_id: self.type_id, params: self.params@ }
    }
}

impl View for TyckInfo {
    type V = TyckInfoView;

    open spec fn view(&self) -> TyckInfoView {
        match self {
            TyckInfo::Plain(type_id) => TyckInfoView::Plain(*type_id),
            TyckInfo::Container(info) => TyckInfoView::Container(info@),
        }
    }
}

impl ContainerTyckInfo {
    /// Whether two container descriptors say the same.
    pub fn same(&self, other: &ContainerTyckInfo) -> (eq: bool)
        ensures
            eq == (self@ == other@),
    {
        if self.type_id != other.type_id {
            return false;
        }
        if self.params.len() != other.params.len() {
            return false;
        }
        let mut i: usize = 0;
        while i < self.params.len()
            invariant
                i <= self.params.len(),
                self.params.len() == other.params.len(),
                forall|k: int| 0 <= k < i ==> self.params@[k] == other.params@[k],
            decreases self.params.len() - i,
        {
            if self.params[i] != other.params[i] {
                return false;
            }
            i += 1;
        }
        assert(self.params@ =~= other.params@);
        true
    }
}

impl TyckInfo {
    /// Whether two descriptors say the same.
    pub fn same(&self, other: &TyckInfo) -> (eq: bool)
        ensures
            eq == (self@ == other@),
    {
        match (self, other) {
            (TyckInfo::Plain(a), TyckInfo::Plain(b)) => *a == *b,
            (TyckInfo::Container(a), TyckInfo::Container(b)) => a.same(b),
            _ => false,
        }
    }
}

/// What a pool has to hold of its descriptors: none is there twice, so that
/// descriptors that say the same share one handle, and the parameters of a
/// container descriptor are handles of descriptors made before it.
pub open spec fn interned(pool: Seq<TyckInfoView>) -> bool {
    &&& forall|i: int, j: int|
        0 <= i < j < pool.len() ==> #[trigger] pool[i] != #[trigger] pool[j]
    &&& forall|i: int, k: int|
        0 <= i < pool.len() && pool[i] is Container && 0 <= k < pool[i]->Container_0.params.len()
            ==> (#[trigger] pool[i]->Container_0.params[k]).0 < i
}

/// Whether every handle of `params` is one of a pool with `len`
/// descriptors.
pub open spec fn handles_within(params: Seq<TyckRef>, len: nat) -> bool {
    forall|k: int| 0 <= k < params.len() ==> (#[trigger] params[k]).0 < len
}

/// The pool that interns the descriptors of one virtual machine. A handle is
/// the place of its descriptor in the order in which the pool made them.
pub struct TyckInfoPool {
    infos: Vec<TyckInfo>,
}

impl View for TyckInfoPool {
    type V = Seq<TyckInfoView>;

    closed spec fn view(&self) -> Seq<TyckInfoView> {
        Seq::new(self.infos@.len(), |i: int| self.infos@[i]@)
    }
}

impl TyckInfoPool {
    /// The pool's descriptors are interned.
    #[verifier::type_invariant]
    pub closed spec fn wf(&self) -> bool {
        interned(self@)
    }

    /// An empty pool.
    pub fn new() -> (pool: Self)
        ensures
            pool.wf(),
            pool@ == Seq::<TyckInfoView>::empty(),
    {
        Self { infos: Vec::new() }
    }

    /// The number of descriptors in the pool.
    pub fn len(&self) -> (len: usize)
        ensures
            len == self@.len(),
    {
        self.infos.len()
    }

    /// The descriptor behind a handle of this pool.
    pub fn get(&self, handle: TyckRef) -> (info: &TyckInfo)
        requires
            handle.0 < self@.len(),
        ensures
            info@ == self@[handle.0 as int],
    {
        &self.infos[handle.0]
    }

    /// The place of a descriptor in the pool, if the pool holds it.
    fn find(&self, info: &TyckInfo) -> (place: Option<usize>)
        ensures
            match place {
                Some(i) => i < self@.len() && self@[i as int] == info@,
                None => !self@.contains(info@),
            },
    {
        let mut i: usize = 0;
        while i < self.infos.len()
            invariant
                i <= self.infos@.len(),
                forall|k: int| 0 <= k < i ==> self@[k] != info@,
            decreases self.infos@.len() - i,
        {
            if self.infos[i].same(info) {
                return Some(i);
            }
            i += 1;
        }
        None
    }

    /// Interns a descriptor: hands out the handle of the one in the pool
    /// that says the same, and takes the descriptor into the pool where
    /// there is none.
    fn intern(&mut self, info: TyckInfo) -> (handle: TyckRef)
        requires
            info@ matches TyckInfoView::Container(c) ==> handles_within(c.params, old(self)@.len()),
        ensures
            handle.0 < final(self)@.len(),
            final(self)@[handle.0 as int] == info@,
            old(self)@.contains(info@) ==> final(self)@ == old(self)@,
            !old(self)@.contains(info@) ==> final(self)@ == old(self)@.push(info@),
    {
        proof {
            use_type_invariant(&*self);
        }
        match self.find(&info) {
            Some(i) => TyckRef(i),
            None => {
                let place: usize = self.infos.len();
                let ghost before = self@;
                // The descriptors leave the pool while one is added, so that
                // the pool is whole wherever the addition could stop.
                let mut infos: Vec<TyckInfo> = Vec::new();
                core::mem::swap(&mut infos, &mut self.infos);
                infos.push(info);
                proof {
                    let after = Seq::new(infos@.len(), |i: int| infos@[i]@);
                    assert(after =~= before.push(info@));
                    assert forall|i: int, j: int| 0 <= i < j < after.len() implies #[trigger] after[i]
                        != #[trigger] after[j] by {
                        if j == before.len() {
                            assert(before[i] == after[i]);
                            assert(before.contains(before[i]));
                        } else {
                            assert(before[i] == after[i] && before[j] == after[j]);
                        }
                    }
                    assert forall|i: int, k: int|
                        0 <= i < after.len() && after[i] is Container && 0 <= k
                            < after[i]->Container_0.params.len() implies (
                    #[trigger] after[i]->Container_0.params[k]).0 < i by {
                        if i < before.len() {
                            assert(before[i] == after[i]);
                        }
                    }
                    assert(interned(after));
                }
                core::mem::swap(&mut infos, &mut self.infos);
                assert(self@ =~= before.push(info@));
                TyckRef(place)
            },
        }
    }

    /// The handle of the descriptor of a type without parameters. The pool
    /// grows by that descriptor where it did not hold it, and stays as it is
    /// where it did.
    pub fn create_plain_type(&mut self, type_id: TypeId) -> (handle: TyckRef)
        ensures
            handle.0 < final(self)@.len(),
            final(self)@[handle.0 as int] == TyckInfoView::Plain(type_id),
            old(self)@.contains(TyckInfoView::Plain(type_id)) ==> final(self)@ == old(self)@,
            !old(self)@.contains(TyckInfoView::Plain(type_id)) ==> final(self)@ == old(self)@.push(
                TyckInfoView::Plain(type_id),
            ),
    {
        self.intern(TyckInfo::Plain(type_id))
    }

    /// The handle of the descriptor of a container type whose parameters
    /// are descriptors of this pool. The pool grows by that descriptor where
    /// it did not hold it, and stays as it is where it did.
    pub fn create_container_type(&mut self, type_id: TypeId, params: Vec<TyckRef>) -> (handle:
        TyckRef)
        requires
            handles_within(params@, old(self)@.len()),
        ensures
            handle.0 < final(self)@.len(),
            final(self)@[handle.0 as int] == TyckInfoView::Container(
                ContainerTyckInfoView { type_id, params: params@ },
            ),
            old(self)@.contains(
                TyckInfoView::Container(ContainerTyckInfoView { type_id, params: params@ }),
            ) ==> final(self)@ == old(self)@,
            !old(self)@.contains(
                TyckInfoView::Container(ContainerTyckInfoView { type_id, params: params@ }),
            ) ==> final(self)@ == old(self)@.push(
                TyckInfoView::Container(ContainerTyckInfoView { type_id, params: params@ }),
            ),
    {
        self.intern(TyckInfo::Container(ContainerTyckInfo { type_id, params }))
    }

    /// Descriptors that say the same share one handle.
    pub proof fn lemma_interned_once(&self, a: TyckRef, b: TyckRef)
        requires
            self.wf(),
            a.0 < self@.len(),
            b.0 < self@.len(),
            self@[a.0 as int] == self@[b.0 as int],
        ensures
            a == b,
    {
        if a.0 < b.0 {
            assert(self@[a.0 as int] != self@[b.0 as int]);
        } else if b.0 < a.0 {
            assert(self@[b.0 as int] != self@[a.0 as int]);
        }
    }

    /// The parameters of a container descriptor were interned before it.
    pub proof fn lemma_params_precede(&self, handle: TyckRef, k: int)
        requires
            self.wf(),
            handle.0 < self@.len(),
            self@[handle.0 as int] is Container,
            0 <= k < self@[handle.0 as int]->Container_0.params.len(),
        ensures
            self@[handle.0 as int]->Container_0.params[k].0 < handle.0,
    {
    }
}

} // verus!
