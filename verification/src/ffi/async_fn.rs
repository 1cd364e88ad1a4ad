//! Asynchronous functions of the host, and what they leave to be done when
//! their result has arrived.

use crate::data::value::Value;
use crate::data::wrapper::GcInfo;
use crate::util::serializer::SerializerCommons;
use vstd::prelude::*;

verus! {

/// What has to be done to one object when an asynchronous call has come to
/// its end.
#[derive(Clone, Copy, PartialEq, Eq, Structural, Debug)]
pub enum AsyncOwnInfoGuard {
    /// Nothing.
    DoNothing,
    /// The object gets the access state that was recorded for it.
    SetOwnInfo(Value, GcInfo),
}

impl AsyncOwnInfoGuard {
    /// The object that the guard resets, if it resets one.
    pub open spec fn spec_target(self) -> Option<Value> {
        match self {
            AsyncOwnInfoGuard::DoNothing => None,
            AsyncOwnInfoGuard::SetOwnInfo(value, _) => Some(value),
        }
    }

    /// The state of the object `value` after the guard has run, where it was
    /// `current` before: the recorded state where the guard is for that
    /// object, and `current` where it is not.
    pub open spec fn spec_restore(self, value: Value, current: GcInfo) -> GcInfo {
        match self {
            AsyncOwnInfoGuard::DoNothing => current,
            AsyncOwnInfoGuard::SetOwnInfo(target, info) => if target == value {
                info
            } else {
                current
            },
        }
    }

    /// The object that the guard resets, if it resets one.
    #[verifier::when_used_as_spec(spec_target)]
    pub fn target(self) -> (target: Option<Value>)
        ensures
            target == self.spec_target(),
    {
        match self {
            AsyncOwnInfoGuard::DoNothing => None,
            AsyncOwnInfoGuard::SetOwnInfo(value, _) => Some(value),
        }
    }

    /// The state of the object `value` after the guard has run, where it was
    /// `current` before.
    #[verifier::when_used_as_spec(spec_restore)]
    pub fn restore(self, value: Value, current: GcInfo) -> (state: GcInfo)
        ensures
            state == self.spec_restore(value, current),
    {
        match self {
            AsyncOwnInfoGuard::DoNothing => current,
            AsyncOwnInfoGuard::SetOwnInfo(target, info) => if target == value {
                info
            } else {
                current
            },
        }
    }
}

/// The state of the object `value` after all of `guards` have run in their
/// order, where it was `current` before.
pub open spec fn restored(guards: Seq<AsyncOwnInfoGuard>, value: Value, current: GcInfo) -> GcInfo
    decreases guards.len(),
{
    if guards.len() == 0 {
        current
    } else {
        guards.last().spec_restore(value, restored(guards.drop_last(), value, current))
    }
}

/// Whether no two guards reset the same object.
pub open spec fn distinct_targets(guards: Seq<AsyncOwnInfoGuard>) -> bool {
    forall|i: int, j: int|
        0 <= i < j < guards.len() && guards[i].spec_target() is Some ==> guards[i].spec_target()
            != guards[j].spec_target()
}

/// An object that no guard is for keeps its state.
pub proof fn lemma_untouched_keeps_state(
    guards: Seq<AsyncOwnInfoGuard>,
    value: Value,
    current: GcInfo,
)
    requires
        forall|i: int| 0 <= i < guards.len() ==> guards[i].spec_target() != Some(value),
    ensures
        restored(guards, value, current) == current,
    decreases guards.len(),
{
    if guards.len() > 0 {
        let rest = guards.drop_last();
        assert forall|i: int| 0 <= i < rest.len() implies rest[i].spec_target() != Some(value) by {
            assert(rest[i] == guards[i]);
        }
        lemma_untouched_keeps_state(rest, value, current);
        assert(guards.last() == guards[guards.len() - 1]);
    }
}

/// The last guard that is for an object decides its state: where the guard
/// at `k` records `info` for `value` and no later guard is for `value`, the
/// object has the state `info` after all guards have run, whatever it was
/// before.
pub proof fn lemma_last_guard_decides(
    guards: Seq<AsyncOwnInfoGuard>,
    k: int,
    value: Value,
    info: GcInfo,
    current: GcInfo,
)
    requires
        0 <= k < guards.len(),
        guards[k] == AsyncOwnInfoGuard::SetOwnInfo(value, info),
        forall|j: int| k < j < guards.len() ==> guards[j].spec_target() != Some(value),
    ensures
        restored(guards, value, current) == info,
    decreases guards.len(),
{
    let rest = guards.drop_last();
    if k == guards.len() - 1 {
    } else {
        assert(rest[k] == guards[k]);
        assert forall|j: int| k < j < rest.len() implies rest[j].spec_target() != Some(value) by {
            assert(rest[j] == guards[j]);
        }
        lemma_last_guard_decides(rest, k, value, info, current);
        assert(guards.last().spec_target() != Some(value));
    }
}

/// Where no two guards are for the same object, every guard leaves its
/// object in the state that it recorded, whatever the state was before.
pub proof fn lemma_every_guard_restores(
    guards: Seq<AsyncOwnInfoGuard>,
    k: int,
    current: GcInfo,
)
    requires
        distinct_targets(guards),
        0 <= k < guards.len(),
        guards[k] is SetOwnInfo,
    ensures
        restored(guards, guards[k]->SetOwnInfo_0, current) == guards[k]->SetOwnInfo_1,
{
    let value = guards[k]->SetOwnInfo_0;
    let info = guards[k]->SetOwnInfo_1;
    assert forall|j: int| k < j < guards.len() implies guards[j].spec_target() != Some(value) by {
        assert(guards[k].spec_target() == Some(value));
    }
    lemma_last_guard_decides(guards, k, value, info, current);
}

/// The result of an asynchronous function that is still on its way: the
/// future `fut` that yields it, and the guards that have to run when it has
/// arrived, be it a value or an exception.
pub struct Promise<F> {
    /// The future that yields the result.
    pub fut: F,
    /// What has to be done to the objects that were lent to the call.
    pub guards: Vec<AsyncOwnInfoGuard>,
}

impl<F> Promise<F> {
    /// A promise with its guards.
    pub fn new(fut: F, guards: Vec<AsyncOwnInfoGuard>) -> (promise: Self)
        ensures
            promise.fut == fut,
            promise.guards == guards,
    {
        Self { fut, guards }
    }

    /// The state that the object `value` has to be given once the future has
    /// resolved, where its state is `current`: the guards run in their
    /// order, whether the future yielded a value or an exception.
    pub fn restored_state(&self, value: Value, current: GcInfo) -> (state: GcInfo)
        ensures
            state == restored(self.guards@, value, current),
    {
        let mut state: GcInfo = current;
        let mut i: usize = 0;
        while i < self.guards.len()
            invariant
                i <= self.guards@.len(),
                state == restored(self.guards@.take(i as int), value, current),
            decreases self.guards@.len() - i,
        {
            proof {
                let upto = self.guards@.take(i as int + 1);
                assert(upto.drop_last() =~= self.guards@.take(i as int));
                assert(upto.last() == self.guards@[i as int]);
            }
            state = self.guards[i].restore(value, state);
            i += 1;
        }
        assert(self.guards@.take(i as int) =~= self.guards@);
        state
    }

    /// The objects that the guards reset, in the order of the guards.
    pub fn targets(&self) -> (targets: Vec<Value>)
        ensures
            targets@ == guard_targets(self.guards@),
    {
        let mut targets: Vec<Value> = Vec::new();
        let mut i: usize = 0;
        while i < self.guards.len()
            invariant
                i <= self.guards@.len(),
                targets@ == guard_targets(self.guards@.take(i as int)),
            decreases self.guards@.len() - i,
        {
            proof {
                let upto = self.guards@.take(i as int + 1);
                assert(upto.drop_last() =~= self.guards@.take(i as int));
                assert(upto.last() == self.guards@[i as int]);
            }
            if let Some(value) = self.guards[i].target() {
                targets.push(value);
            }
            i += 1;
        }
        assert(self.guards@.take(i as int) =~= self.guards@);
        targets
    }
}

/// The objects that a list of guards resets, in the order of the guards.
pub open spec fn guard_targets(guards: Seq<AsyncOwnInfoGuard>) -> Seq<Value>
    decreases guards.len(),
{
    if guards.len() == 0 {
        Seq::empty()
    } else {
        match guards.last().spec_target() {
            Some(value) => guard_targets(guards.drop_last()).push(value),
            None => guard_targets(guards.drop_last()),
        }
    }
}

/// The execution context of a virtual machine as an asynchronous function of
/// the host sees it: it leads to the scheduling handle of the fiber that
/// runs the call.
pub trait AsyncVMContext: Sized + Send + Sync {
    /// What the fibers of the virtual machine share beside its bookkeeping.
    type SharedData;

    /// The scheduling handle of the running fiber.
    fn serializer(&self) -> &SerializerCommons;
}

/// An asynchronous function of the host.
pub trait AsyncFunction {
    /// How the function declares the types of its arguments and results.
    type Signature;

    /// The future that a call of the function returns.
    type Future;

    /// The declared signature.
    fn signature(&self) -> Self::Signature;

    /// Calls the function with arguments whose types it has to check
    /// against its signature first. Where they do not fit, the promise
    /// resolves to an exception.
    fn call_tyck<C: AsyncVMContext>(&self, context: &C, args: &[Value]) -> Promise<Self::Future>;

    /// Calls the function with arguments whose types the caller has checked
    /// against the signature before.
    fn call_rtlc<C: AsyncVMContext>(&self, context: &C, args: &[Value]) -> Promise<Self::Future>;
}

} // verus!
