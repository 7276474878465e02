use crate::app_state::AppState;
use crate::app_state::Track;
use std::sync::Arc;
use std::sync::Mutex;
use std::sync::TryLockError;
use vstd::prelude::*;

verus! {

/// `std::sync::Mutex`, which Verus treats as an opaque value.
#[verifier::external_type_specification]
#[verifier::external_body]
#[verifier::reject_recursive_types(T)]
pub struct ExMutex<T: ?Sized>(Mutex<T>);

/// The state that a mutex held when `Mutex::new` made it. What it holds
/// later is no part of its value: any thread with a handle may have stored
/// another state since.
pub uninterp spec fn made_with(lock: Mutex<AppState>) -> Track;

/// `Mutex::new`: a mutex that holds `initial`. The state put in is well
/// formed, as is every state stored later, so that every state read back is.
#[verifier::external_body]
fn new_lock(initial: AppState) -> (lock: Mutex<AppState>)
    requires
        initial@.wf(),
    ensures
        made_with(lock) == initial@,
{
    Mutex::new(initial)
}

/// `Arc::clone`: one more pointer to the same mutex, so that what the result
/// points to is what `lock` points to.
#[verifier::external_body]
fn share_lock(lock: &Arc<Mutex<AppState>>) -> (handle: Arc<Mutex<AppState>>)
    ensures
        handle == *lock,
{
    Arc::clone(lock)
}

/// `Mutex::lock`, then an assignment through the guard, which is dropped at
/// once. A poisoned mutex is taken over, so the call waits but never fails.
#[verifier::external_body]
fn store(lock: &Mutex<AppState>, new_state: AppState)
    requires
        new_state@.wf(),
{
    match lock.lock() {
        Ok(mut guard) => *guard = new_state,
        Err(poisoned) => *poisoned.into_inner() = new_state,
    }
}

/// `Mutex::lock`, then a copy of the state behind the guard. Only well-formed
/// states are ever put into the mutex, so the copy is well formed.
#[verifier::external_body]
fn load(lock: &Mutex<AppState>) -> (state: AppState)
    ensures
        state@.wf(),
{
    match lock.lock() {
        Ok(guard) => guard.clone(),
        Err(poisoned) => poisoned.into_inner().clone(),
    }
}

/// `Mutex::try_lock`, then a copy of the state behind the guard; `None` when
/// another thread holds the mutex at that moment.
#[verifier::external_body]
fn try_load(lock: &Mutex<AppState>) -> (state: Option<AppState>)
    ensures
        state matches Some(s) ==> s@.wf(),
{
    match lock.try_lock() {
        Ok(guard) => Some(guard.clone()),
        Err(TryLockError::Poisoned(poisoned)) => Some(poisoned.into_inner().clone()),
        Err(TryLockError::WouldBlock) => None,
    }
}

/// The one state of the song that is playing, shared between the task that
/// writes it and the poller that reads it. The lock is held for a single
/// assignment or a single copy, never across a call of any other code.
pub struct SharedState {
    lock: Arc<Mutex<AppState>>,
}

impl SharedState {
    /// The state that the cell held when it was made.
    pub closed spec fn started_as(self) -> Track {
        made_with(*self.lock)
    }

    /// A cell that starts out as `Connecting`.
    pub fn new() -> (shared: SharedState)
        ensures
            shared.started_as() == Track::Connecting,
    {
        SharedState { lock: Arc::new(new_lock(AppState::Connecting)) }
    }

    /// Another handle to the same cell: as values, the handle and `self` are
    /// equal.
    pub fn handle(&self) -> (shared: SharedState)
        ensures
            shared == *self,
    {
        SharedState { lock: share_lock(&self.lock) }
    }

    /// Replaces the state, waiting for the lock if another thread holds it.
    pub fn commit(&self, new_state: AppState)
        requires
            new_state@.wf(),
    {
        store(&self.lock, new_state)
    }

    /// A copy of the state if the lock is free at this moment, `None` if it
    /// is not. Never waits.
    pub fn try_read(&self) -> (state: Option<AppState>)
        ensures
            state matches Some(s) ==> s@.wf(),
    {
        try_load(&self.lock)
    }

    /// A copy of the state, waiting for the lock if another thread holds it.
    pub fn read_blocking(&self) -> (state: AppState)
        ensures
            state@.wf(),
    {
        load(&self.lock)
    }
}

} // verus!
