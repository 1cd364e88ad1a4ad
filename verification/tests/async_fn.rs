use pr47_core::data::value::Value;
use pr47_core::data::wrapper::GcInfo;
use pr47_core::ffi::async_fn::{AsyncOwnInfoGuard, Promise};
use pr47_core::util::mem::FatPointer;

fn object(address: usize) -> Value {
    Value { ptr: FatPointer { ptr: address, trivia: 0 } }
}

#[test]
fn guard_resets_its_own_object_only() {
    let guard = AsyncOwnInfoGuard::SetOwnInfo(object(8), GcInfo::Owned);
    assert_eq!(guard.target(), Some(object(8)));
    assert_eq!(guard.restore(object(8), GcInfo::SharedToRust), GcInfo::Owned);
    assert_eq!(guard.restore(object(16), GcInfo::SharedToRust), GcInfo::SharedToRust);
}

#[test]
fn idle_guard_changes_nothing() {
    let guard = AsyncOwnInfoGuard::DoNothing;
    assert_eq!(guard.target(), None);
    assert_eq!(guard.restore(object(8), GcInfo::MutSharedToRust), GcInfo::MutSharedToRust);
}

#[test]
fn every_guard_restores_its_object() {
    let guards = vec![
        AsyncOwnInfoGuard::SetOwnInfo(object(8), GcInfo::Owned),
        AsyncOwnInfoGuard::DoNothing,
        AsyncOwnInfoGuard::SetOwnInfo(object(16), GcInfo::SharedFromRust),
        AsyncOwnInfoGuard::SetOwnInfo(object(24), GcInfo::MutSharedFromRust),
    ];
    let promise = Promise::new((), guards);
    for before in [GcInfo::SharedToRust, GcInfo::MutSharedToRust, GcInfo::MovedToRust] {
        assert_eq!(promise.restored_state(object(8), before), GcInfo::Owned);
        assert_eq!(promise.restored_state(object(16), before), GcInfo::SharedFromRust);
        assert_eq!(promise.restored_state(object(24), before), GcInfo::MutSharedFromRust);
        assert_eq!(promise.restored_state(object(32), before), before);
    }
    assert_eq!(promise.targets(), vec![object(8), object(16), object(24)]);
}

#[test]
fn later_guard_for_the_same_object_wins() {
    let guards = vec![
        AsyncOwnInfoGuard::SetOwnInfo(object(8), GcInfo::Owned),
        AsyncOwnInfoGuard::SetOwnInfo(object(8), GcInfo::SharedFromRust),
    ];
    let promise = Promise::new(0u8, guards);
    assert_eq!(promise.restored_state(object(8), GcInfo::SharedToRust), GcInfo::SharedFromRust);
    assert_eq!(promise.targets(), vec![object(8), object(8)]);
}

#[test]
fn promise_without_guards_leaves_every_object_alone() {
    let promise = Promise::new("pending", Vec::new());
    assert_eq!(promise.fut, "pending");
    assert_eq!(promise.restored_state(object(8), GcInfo::SharedToRust), GcInfo::SharedToRust);
    assert!(promise.targets().is_empty());
}
