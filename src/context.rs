use crate::state::ZFState;
use async_std::sync::{Mutex, MutexGuard};
use std::sync::Arc;
use vstd::prelude::*;

verus! {

#[verifier::external_type_specification]
#[verifier::external_body]
#[verifier::reject_recursive_types(T)]
pub struct ExMutex<T: ?Sized>(Mutex<T>);

#[verifier::external_type_specification]
#[verifier::external_body]
#[verifier::reject_recursive_types(T)]
pub struct ExMutexGuard<'a, T: ?Sized>(MutexGuard<'a, T>);

/// What a unit's callbacks share: its state and its execution mode.
#[derive(Debug)]
pub struct ZFInnerCtx {
    pub state: ZFState,
    /// The unit's execution mode. Provisional: no rule of the core reads it.
    pub mode: usize,
}

impl ZFInnerCtx {
    pub fn new(state: ZFState, mode: usize) -> (r: ZFInnerCtx)
        ensures
            r.state == state,
            r.mode == mode,
    {
        ZFInnerCtx { state, mode }
    }
}

/// Relies on async_std::sync::Mutex::new: a mutex holding `inner`, unlocked.
#[verifier::external_body]
fn new_mutex(inner: ZFInnerCtx) -> (r: Mutex<ZFInnerCtx>) {
    Mutex::new(inner)
}

/// Relies on async_std::sync::Mutex::lock, driven to completion by
/// async_std::task::block_on: waits until no other guard is alive.
#[verifier::external_body]
fn lock_blocking(m: &Mutex<ZFInnerCtx>) -> (r: MutexGuard<'_, ZFInnerCtx>) {
    async_std::task::block_on(m.lock())
}

/// A unit's execution context: its state and mode behind a lock, shared by
/// the unit's input rule, run and output rule.
#[derive(Clone)]
pub struct ZFContext(Arc<Mutex<ZFInnerCtx>>);

impl ZFContext {
    pub fn new(state: ZFState, mode: usize) -> (r: ZFContext) {
        let inner = ZFInnerCtx::new(state, mode);
        ZFContext(Arc::new(new_mutex(inner)))
    }

    /// Blocks until the context is free and holds it until the guard is dropped.
    pub fn lock(&self) -> (r: MutexGuard<'_, ZFInnerCtx>) {
        lock_blocking(&self.0)
    }

    /// The lock itself, for callers that wait for it without blocking a thread.
    pub fn mutex(&self) -> (r: &Mutex<ZFInnerCtx>) {
        &self.0
    }
}

} // verus!
