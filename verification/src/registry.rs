//! The registry: one current logger handle, read without locks and replaced
//! atomically, and the flush guard that belongs to it.
//!
//! [`RegistryState`] is what the writers agree on: the handle in effect and
//! the guard installed with it. Its operations are exact, because whoever
//! calls them has the state to itself. [`Registry`] shares one state among
//! threads: writers enter it one at a time, readers take the handle from the
//! swap slot without entering.

use crate::guard_slot::GuardSlot;
use arc_swap::{ArcSwap, Guard};
use slog_async::AsyncGuard;
use std::sync::{Arc, LockResult, Mutex, MutexGuard, PoisonError};
use vstd::prelude::*;

verus! {

/// `std::sync::Mutex`, carried without a view of what it protects.
#[verifier::external_type_specification]
#[verifier::external_body]
#[verifier::reject_recursive_types(T)]
pub struct ExMutex<T: ?Sized>(Mutex<T>);

/// `std::sync::MutexGuard`: the mutex is held while a value of it lives.
#[verifier::external_type_specification]
#[verifier::external_body]
#[verifier::reject_recursive_types(T)]
pub struct ExMutexGuard<'a, T: ?Sized + 'a>(MutexGuard<'a, T>);

/// `std::sync::PoisonError`: what `lock` gives on a poisoned mutex.
#[verifier::external_type_specification]
#[verifier::external_body]
#[verifier::reject_recursive_types(T)]
pub struct ExPoisonError<T>(PoisonError<T>);

/// `Mutex::new`: a mutex around `t`. Nothing is claimed of it.
pub assume_specification<T>[ Mutex::<T>::new ](t: T) -> Mutex<T>;

/// `Mutex::lock`: waits for the mutex and returns its guard, or the error of
/// a mutex that a panicking holder left poisoned. Nothing is claimed of what
/// the guard protects: other threads have been there.
pub assume_specification<'a, T: ?Sized>[ Mutex::<T>::lock ](m: &'a Mutex<T>) -> LockResult<
    MutexGuard<'a, T>,
>;

/// A shareable, immutable reference to a configured logger. Two handles are
/// equal when they point to the same logger.
///
/// The logger's type cannot be named in verified code, so the struct is
/// opaque to the verifier and its field is open: a handle is made by writing
/// the struct, and used by reading the field.
#[verifier::external_body]
pub struct LoggerHandle {
    pub logger: Arc<slog::Logger>,
}

/// A short-lived view of the handle that was current when it was taken, for
/// the length of one logging call. It is cheap to take and not meant to be
/// stored. Opaque to the verifier, with an open field, as a handle is.
#[verifier::external_body]
pub struct LoggerLease {
    pub lease: Guard<'static, Arc<slog::Logger>>,
}

/// The writing end of the swap slot that holds the current handle. There is
/// one per slot, it cannot be copied, and it alone stores: so what the slot
/// holds changes only through a `&mut` to its writing end.
#[verifier::external_body]
pub struct HandleWriter {
    slot: Arc<ArcSwap<slog::Logger>>,
}

/// A reading end of the swap slot. Any number may exist; they only load.
#[verifier::external_body]
pub struct HandleReader {
    slot: Arc<ArcSwap<slog::Logger>>,
}

/// The handle that the slot behind `writer` holds: the one that the slot was
/// made with or, after that, the one that was last swapped in.
pub uninterp spec fn held(writer: HandleWriter) -> LoggerHandle;

/// Whether `handle` refers to a logger that drops every record.
pub uninterp spec fn discards(handle: LoggerHandle) -> bool;

/// `Logger::root` over the `Discard` drain, without key-value pairs: a logger
/// that drops every record.
#[verifier::external_body]
fn discard_logger() -> (handle: LoggerHandle)
    ensures
        discards(handle),
{
    LoggerHandle { logger: Arc::new(slog::Logger::root(slog::Discard, slog::OwnedKV(()))) }
}

/// `ArcSwap::from`: a new slot, which holds `initial`.
#[verifier::external_body]
fn slot_new(initial: LoggerHandle) -> (writer: HandleWriter)
    ensures
        held(writer) == initial,
{
    HandleWriter { slot: Arc::new(ArcSwap::from(initial.logger)) }
}

/// `Arc::clone` of the slot behind `writer`: one more reference to the same
/// slot, for reading.
#[verifier::external_body]
fn slot_reader(writer: &HandleWriter) -> HandleReader {
    HandleReader { slot: Arc::clone(&writer.slot) }
}

/// `ArcSwapAny::swap`: puts `handle` into the slot in one atomic step and
/// returns the handle that was there. Readers that load meanwhile get one or
/// the other.
#[verifier::external_body]
fn slot_swap(writer: &mut HandleWriter, handle: LoggerHandle) -> (displaced: LoggerHandle)
    ensures
        held(*final(writer)) == handle,
        displaced == held(*old(writer)),
{
    LoggerHandle { logger: writer.slot.swap(handle.logger) }
}

/// `ArcSwapAny::load_full`: an owned copy of the handle that the slot holds.
/// Nothing stores while the writing end is borrowed, so that is the handle
/// last put there.
#[verifier::external_body]
fn slot_load_full(writer: &HandleWriter) -> (handle: LoggerHandle)
    ensures
        handle == held(*writer),
{
    LoggerHandle { logger: writer.slot.load_full() }
}

/// `ArcSwapAny::load`: a lease on the handle that the slot holds at the
/// moment of the call. Writers may have stored since the reader was made, so
/// nothing is claimed of which handle that is.
#[verifier::external_body]
fn slot_load(reader: &HandleReader) -> LoggerLease {
    LoggerLease { lease: reader.slot.load() }
}

/// `Guard::into_inner`: turns a lease into an owned handle.
#[verifier::external_body]
fn lease_into_handle(lease: LoggerLease) -> LoggerHandle {
    LoggerHandle { logger: Guard::into_inner(lease.lease) }
}

/// `DerefMut::deref_mut` of a mutex guard: the state that the guard protects,
/// to the holder alone while the guard lives. Nothing is claimed of the state
/// found there: other writers have been in.
#[verifier::external_body]
fn guarded<'a, 'b>(entered: &'b mut MutexGuard<'a, RegistryState>) -> &'b mut RegistryState {
    &mut **entered
}

/// What a write pushed out of the registry. Dropping it releases the guard,
/// which waits for the sink behind the old logger to deliver what it took.
pub struct Displaced {
    pub handle: LoggerHandle,
    pub guard: Option<AsyncGuard>,
}

/// The lock around the registry state was left poisoned by a holder that
/// panicked: the pairing of handle and guard can no longer be trusted.
#[derive(Clone, Copy, Debug, PartialEq, Eq, Structural)]
pub enum FatalConcurrencyError {
    Poisoned,
}

/// The handle in effect and the flush guard installed with it.
pub struct RegistryState {
    writer: HandleWriter,
    guard: GuardSlot,
}

impl RegistryState {
    /// The handle in effect.
    pub closed spec fn current(self) -> LoggerHandle {
        held(self.writer)
    }

    /// The guard installed with the handle in effect, if it came with one.
    pub closed spec fn guard(self) -> Option<AsyncGuard> {
        self.guard@
    }

    /// The state at rest: a logger that drops everything, and no guard.
    pub open spec fn is_idle(self) -> bool {
        discards(self.current()) && self.guard() is None
    }

    /// The step of every write: `handle` and `guard` take effect together,
    /// and what was in effect is pushed out, together.
    pub open spec fn replaces(
        before: RegistryState,
        handle: LoggerHandle,
        guard: Option<AsyncGuard>,
        after: RegistryState,
        displaced: Displaced,
    ) -> bool {
        &&& after.current() == handle
        &&& after.guard() == guard
        &&& displaced.handle == before.current()
        &&& displaced.guard == before.guard()
    }

    /// A state at rest.
    pub fn new() -> (state: RegistryState)
        ensures
            state.is_idle(),
    {
        RegistryState { writer: slot_new(discard_logger()), guard: GuardSlot::empty() }
    }

    /// Puts `handle` and `guard` in effect and hands out what they replace.
    pub fn install(&mut self, handle: LoggerHandle, guard: Option<AsyncGuard>) -> (displaced:
        Displaced)
        ensures
            RegistryState::replaces(*old(self), handle, guard, *final(self), displaced),
    {
        let old_handle = slot_swap(&mut self.writer, handle);
        let old_guard = match guard {
            Some(guard) => self.guard.install(guard),
            None => self.guard.release(),
        };
        Displaced { handle: old_handle, guard: old_guard }
    }

    /// Puts `l` in effect, without a guard.
    pub fn set(&mut self, l: LoggerHandle) -> (displaced: Displaced)
        ensures
            RegistryState::replaces(*old(self), l, None, *final(self), displaced),
    {
        self.install(l, None)
    }

    /// Puts `logger` in effect together with the guard of its sink.
    pub fn set_with_async_guard(&mut self, logger: LoggerHandle, async_guard: AsyncGuard) -> (displaced:
        Displaced)
        ensures
            RegistryState::replaces(
                *old(self),
                logger,
                Some(async_guard),
                *final(self),
                displaced,
            ),
    {
        self.install(logger, Some(async_guard))
    }

    /// Brings the state back to rest.
    pub fn clear(&mut self) -> (displaced: Displaced)
        ensures
            final(self).is_idle(),
            displaced.handle == old(self).current(),
            displaced.guard == old(self).guard(),
    {
        self.install(discard_logger(), None)
    }

    /// An owned copy of the handle in effect.
    pub fn get(&self) -> (handle: LoggerHandle)
        ensures
            handle == self.current(),
    {
        slot_load_full(&self.writer)
    }
}

/// A state just made and a state just cleared cannot be told apart: both
/// hold a logger that drops everything, and the same guard, none.
pub proof fn law_states_at_rest_agree(made: RegistryState, cleared: RegistryState)
    requires
        made.is_idle(),
        cleared.is_idle(),
    ensures
        made.guard() == cleared.guard(),
        discards(made.current()) && discards(cleared.current()),
{
}

/// When a handle is put in effect and then read with no write in between,
/// the read gives the very handle that was put there.
pub proof fn law_read_after_write(
    before: RegistryState,
    handle: LoggerHandle,
    guard: Option<AsyncGuard>,
    after: RegistryState,
    displaced: Displaced,
    read: LoggerHandle,
)
    requires
        RegistryState::replaces(before, handle, guard, after, displaced),
        read == after.current(),
    ensures
        read == handle,
{
}

/// A handle and a guard that are installed together stay together: after
/// any write, the state holds exactly the pair that the write brought.
pub proof fn law_guard_belongs_to_handle(
    before: RegistryState,
    logger: LoggerHandle,
    async_guard: AsyncGuard,
    after: RegistryState,
    displaced: Displaced,
)
    requires
        RegistryState::replaces(before, logger, Some(async_guard), after, displaced),
    ensures
        after.current() == logger && after.guard() == Some(async_guard),
{
}

/// When two loggers are installed with their guards, one after the other,
/// the second write pushes out the first logger and the first guard, no
/// later, and nothing of them stays in the state.
pub proof fn law_second_write_displaces_first(
    start: RegistryState,
    l1: LoggerHandle,
    g1: AsyncGuard,
    between: RegistryState,
    first_out: Displaced,
    l2: LoggerHandle,
    g2: AsyncGuard,
    end: RegistryState,
    second_out: Displaced,
)
    requires
        RegistryState::replaces(start, l1, Some(g1), between, first_out),
        RegistryState::replaces(between, l2, Some(g2), end, second_out),
    ensures
        second_out.guard == Some(g1),
        second_out.handle == l1,
        end.guard() == Some(g2),
        end.current() == l2,
        g1 != g2 ==> end.guard() != Some(g1),
{
}

/// A write neither loses nor repeats a guard: the guard in the state and
/// the guard that the write brings are, together, the guard in the state
/// afterwards and the guard that the write hands out. So a guard that was
/// installed leaves the state once, and is let go of by the one who got it.
pub proof fn law_write_keeps_guards(
    before: RegistryState,
    handle: LoggerHandle,
    guard: Option<AsyncGuard>,
    after: RegistryState,
    displaced: Displaced,
)
    requires
        RegistryState::replaces(before, handle, guard, after, displaced),
    ensures
        GuardSlot::guards(before.guard()).add(GuardSlot::guards(guard)) =~= GuardSlot::guards(
            after.guard(),
        ).add(GuardSlot::guards(displaced.guard)),
{
}

/// A handle that was read stays what it was when a write follows: the write
/// hands that handle out, whole, in place of changing it.
pub proof fn law_write_keeps_read_handle(
    before: RegistryState,
    read: LoggerHandle,
    handle: LoggerHandle,
    guard: Option<AsyncGuard>,
    after: RegistryState,
    displaced: Displaced,
)
    requires
        read == before.current(),
        RegistryState::replaces(before, handle, guard, after, displaced),
    ensures
        displaced.handle == read,
{
}

/// One registry state shared by any number of threads.
///
/// Writers enter the state one at a time, for the two exchanges of a write
/// and no longer: what a write pushes out is let go of after the writer has
/// left. Readers never enter: they load from the swap slot. A reader that
/// comes between the two exchanges of a write sees the new handle while the
/// old guard is still held.
pub struct Registry {
    state: Mutex<RegistryState>,
    reader: HandleReader,
}

impl Registry {
    /// A registry at rest.
    pub fn new() -> Registry {
        let state = RegistryState::new();
        let reader = slot_reader(&state.writer);
        Registry { state: Mutex::new(state), reader }
    }

    /// Waits for the state and attempts to enter it. Fails when a writer
    /// panicked inside and left the lock poisoned.
    fn enter(&self) -> Result<MutexGuard<'_, RegistryState>, FatalConcurrencyError> {
        // What the attempt comes to is for the lock to say, at the time of
        // the call; what is made of it is for `entry`.
        let attempt = self.state.lock();
        entry(attempt)
    }
}

/// Sets the logger of `registry`, and releases the guard of the logger that
/// it replaces.
///
/// The write is `RegistryState::set` on the state as the writer finds it.
/// Other writers may come before and after it, so no clause says what a
/// later read gives. What is pushed out is let go of after the state has been
/// left, so that no other thread waits while a sink is flushed.
///
/// Fails, with nothing changed, when the lock around the state is poisoned.
pub fn set_global(registry: &Registry, l: LoggerHandle) -> Result<(), FatalConcurrencyError> {
    let _displaced = {
        let mut entered = registry.enter()?;
        guarded(&mut entered).set(l)
    };
    Ok(())
}

/// Sets the logger of `registry` together with the guard of its asynchronous
/// sink, and releases the guard of the logger that it replaces.
///
/// The write is `RegistryState::set_with_async_guard` on the state as the
/// writer finds it; see `set_global`.
///
/// Fails, with nothing changed, when the lock around the state is poisoned.
pub fn set_global_with_async_guard(
    registry: &Registry,
    logger: LoggerHandle,
    async_guard: AsyncGuard,
) -> Result<(), FatalConcurrencyError> {
    let _displaced = {
        let mut entered = registry.enter()?;
        guarded(&mut entered).set_with_async_guard(logger, async_guard)
    };
    Ok(())
}

/// An owned handle on the logger of `registry`, free to be kept: later
/// writes do not reach it.
///
/// The handle is the one that the slot holds at the moment of the load: the
/// one of the last write that was completed, or of a write under way.
pub fn get_global(registry: &Registry) -> LoggerHandle {
    lease_into_handle(slot_load(&registry.reader))
}

/// A lease on the logger of `registry`, for one logging call. Taking it
/// neither locks nor allocates.
///
/// The lease is on the handle that the slot holds at the moment of the load,
/// as for `get_global`.
pub fn borrow_global(registry: &Registry) -> LoggerLease {
    slot_load(&registry.reader)
}

/// Sets the logger of `registry` to one that drops everything, and releases
/// the guard of the logger that it replaces.
///
/// The write is `RegistryState::clear` on the state as the writer finds it;
/// see `set_global`.
///
/// Fails, with nothing changed, when the lock around the state is poisoned.
pub fn clear_global(registry: &Registry) -> Result<(), FatalConcurrencyError> {
    let _displaced = {
        let mut entered = registry.enter()?;
        guarded(&mut entered).clear()
    };
    Ok(())
}

/// What an attempt to enter a state came to: the state is entered where the
/// lock was taken, and `FatalConcurrencyError::Poisoned` is the answer where
/// a holder that panicked had left the lock poisoned. The poisoned lock is
/// let go of at once.
pub fn entry<'a>(attempt: LockResult<MutexGuard<'a, RegistryState>>) -> (entered: Result<
    MutexGuard<'a, RegistryState>,
    FatalConcurrencyError,
>)
    ensures
        attempt matches Ok(guard) ==> entered == Ok::<
            MutexGuard<'a, RegistryState>,
            FatalConcurrencyError,
        >(guard),
        attempt is Err ==> entered == Err::<MutexGuard<'a, RegistryState>, FatalConcurrencyError>(
            FatalConcurrencyError::Poisoned,
        ),
{
    match attempt {
        Ok(guard) => Ok(guard),
        Err(_) => Err(FatalConcurrencyError::Poisoned),
    }
}

} // verus!
