//! Conformance tests for the scoped-context abstraction: the short-circuit on
//! setup failure, guaranteed cleanup, result passthrough, mutation
//! visibility, and single invocation of the operation.

use std::cell::Cell;

use scoped_context::probe::Probe;
use scoped_context::Context;

/// An owner whose setup succeeds on command and whose cleanup records, in
/// shared cells, how often it ran and which context value it consumed.
struct CellOwner<'a> {
    succeed: bool,
    cleanups: &'a Cell<u32>,
    consumed: &'a Cell<u64>,
}

impl<'a> Context for CellOwner<'a> {
    type Ctx = u64;

    fn setup_context(&mut self) -> Option<u64> {
        if self.succeed { Some(5) } else { None }
    }

    fn cleanup_context(&mut self, ctx: u64) {
        self.cleanups.set(self.cleanups.get() + 1);
        self.consumed.set(ctx);
    }
}

/// An owner standing for resource creation: its context is a fresh buffer,
/// and cleanup publishes the buffer into a shared store.
struct CreateStore<'a> {
    store: &'a Cell<Option<Vec<u8>>>,
}

impl<'a> Context for CreateStore<'a> {
    type Ctx = Vec<u8>;

    fn setup_context(&mut self) -> Option<Vec<u8>> {
        Some(Vec::new())
    }

    fn cleanup_context(&mut self, ctx: Vec<u8>) {
        self.store.set(Some(ctx));
    }
}

/// An owner standing for opening an existing resource: setup fails when the
/// shared store holds nothing, and cleanup puts the buffer back.
struct OpenStore<'a> {
    store: &'a Cell<Option<Vec<u8>>>,
}

impl<'a> Context for OpenStore<'a> {
    type Ctx = Vec<u8>;

    fn setup_context(&mut self) -> Option<Vec<u8>> {
        self.store.take()
    }

    fn cleanup_context(&mut self, ctx: Vec<u8>) {
        self.store.set(Some(ctx));
    }
}

#[test]
fn setup_failure_short_circuits_with_ref() {
    let calls = Cell::new(0u32);
    let r = Probe::new(false, 3).with_ref(|ctx| {
        calls.set(calls.get() + 1);
        ctx.value
    });
    assert_eq!(r, None);
    assert_eq!(calls.get(), 0);
}

#[test]
fn setup_failure_short_circuits_with_mut_ref() {
    let calls = Cell::new(0u32);
    let r = Probe::new(false, 3).with_mut_ref(|ctx| {
        calls.set(calls.get() + 1);
        ctx.value
    });
    assert_eq!(r, None);
    assert_eq!(calls.get(), 0);
}

#[test]
fn setup_failure_skips_cleanup() {
    let cleanups = Cell::new(0u32);
    let calls = Cell::new(0u32);
    let consumed = Cell::new(0u64);
    let owner = CellOwner { succeed: false, cleanups: &cleanups, consumed: &consumed };
    let r = owner.with_ref(|ctx| {
        calls.set(calls.get() + 1);
        *ctx
    });
    assert_eq!(r, None);
    assert_eq!(calls.get(), 0);
    assert_eq!(cleanups.get(), 0);
}

#[test]
fn cleanup_runs_exactly_once_on_success() {
    let cleanups = Cell::new(0u32);
    let consumed = Cell::new(0u64);
    let owner = CellOwner { succeed: true, cleanups: &cleanups, consumed: &consumed };
    let r = owner.with_ref(|ctx| *ctx);
    assert_eq!(r, Some(5));
    assert_eq!(cleanups.get(), 1);
    assert_eq!(consumed.get(), 5);
}

#[test]
fn cleanup_runs_once_even_when_result_is_discarded() {
    let cleanups = Cell::new(0u32);
    let consumed = Cell::new(0u64);
    let owner = CellOwner { succeed: true, cleanups: &cleanups, consumed: &consumed };
    let _ = owner.with_ref(|_ctx| ());
    assert_eq!(cleanups.get(), 1);
}

#[test]
fn result_is_passed_through_unchanged() {
    assert_eq!(Probe::new(true, 42).with_ref(|ctx| ctx.value), Some(42));
    assert_eq!(Probe::new(true, 42).with_mut_ref(|ctx| ctx.value), Some(42));
    assert_eq!(Probe::new(true, 42).with_ref(|_ctx| 0u64), Some(0));
    assert_eq!(Probe::new(true, 42).with_ref(|_ctx| ()), Some(()));
    assert_eq!(
        Probe::new(true, 7).with_ref(|ctx| format!("value {}", ctx.value)),
        Some(String::from("value 7"))
    );
}

#[test]
fn mutation_is_visible_to_cleanup() {
    let cleanups = Cell::new(0u32);
    let consumed = Cell::new(0u64);
    let owner = CellOwner { succeed: true, cleanups: &cleanups, consumed: &consumed };
    let r = owner.with_mut_ref(|ctx| {
        *ctx = 99;
        *ctx
    });
    assert_eq!(r, Some(99));
    assert_eq!(cleanups.get(), 1);
    assert_eq!(consumed.get(), 99);
}

#[test]
fn operation_runs_exactly_once() {
    let calls = Cell::new(0u32);
    let r = Probe::new(true, 8).with_ref(|ctx| {
        calls.set(calls.get() + 1);
        ctx.value
    });
    assert_eq!(r, Some(8));
    assert_eq!(calls.get(), 1);

    let mut_calls = Cell::new(0u32);
    let r = Probe::new(true, 8).with_mut_ref(|ctx| {
        mut_calls.set(mut_calls.get() + 1);
        ctx.value + 1
    });
    assert_eq!(r, Some(9));
    assert_eq!(mut_calls.get(), 1);
}

#[test]
fn write_then_read_round_trip() {
    let store = Cell::new(None);
    let written = CreateStore { store: &store }.with_mut_ref(|buf| {
        buf.extend_from_slice(b"hello, test file!");
        buf.len()
    });
    assert_eq!(written, Some(17));
    let read_back = OpenStore { store: &store }.with_mut_ref(|buf| {
        String::from_utf8(buf.clone()).unwrap()
    });
    assert_eq!(read_back, Some(String::from("hello, test file!")));
    // The buffer went back into the store when the reader's cleanup ran.
    assert_eq!(store.take(), Some(Vec::from(&b"hello, test file!"[..])));
}

#[test]
fn opening_a_missing_resource_yields_nothing() {
    let calls = Cell::new(0u32);
    let store = Cell::new(None);
    let r = OpenStore { store: &store }.with_mut_ref(|buf| {
        calls.set(calls.get() + 1);
        buf.len()
    });
    assert_eq!(r, None);
    assert_eq!(calls.get(), 0);
}
