//! The slot that keeps the flush guard of the logger in use.

use slog_async::AsyncGuard;
use vstd::multiset::Multiset;
use vstd::prelude::*;

verus! {

/// `slog_async::AsyncGuard`: the token whose drop tells the worker of an
/// asynchronous sink to finish and waits until it has. It cannot be copied.
#[verifier::external_type_specification]
#[verifier::external_body]
pub struct ExAsyncGuard(AsyncGuard);

/// Holder of at most one flush guard: the guard of the asynchronous sink
/// behind the logger in use, if that logger was installed with one.
///
/// Dropping a guard blocks until its sink has delivered every record it
/// accepted. The slot never drops a guard itself: whatever leaves the slot is
/// handed to the caller, who releases it.
pub struct GuardSlot {
    guard: Option<AsyncGuard>,
}

impl View for GuardSlot {
    type V = Option<AsyncGuard>;

    closed spec fn view(&self) -> Option<AsyncGuard> {
        self.guard
    }
}

impl GuardSlot {
    /// The step that `install` takes: `guard` goes into the slot, and what
    /// the slot held before is handed out.
    pub open spec fn installs(
        before: GuardSlot,
        guard: AsyncGuard,
        after: GuardSlot,
        released: Option<AsyncGuard>,
    ) -> bool {
        after@ == Some(guard) && released == before@
    }

    /// The step that `release` takes: the slot is left empty, and what it
    /// held before is handed out.
    pub open spec fn releases(
        before: GuardSlot,
        after: GuardSlot,
        released: Option<AsyncGuard>,
    ) -> bool {
        after@ is None && released == before@
    }

    /// The guards among `held`, each as often as it occurs: none or one.
    pub open spec fn guards(held: Option<AsyncGuard>) -> Multiset<AsyncGuard> {
        match held {
            Some(guard) => Multiset::singleton(guard),
            None => Multiset::empty(),
        }
    }

    /// A slot that holds no guard.
    pub fn empty() -> (slot: GuardSlot)
        ensures
            slot@ is None,
    {
        GuardSlot { guard: None }
    }

    /// Whether the slot holds a guard.
    pub fn is_armed(&self) -> (armed: bool)
        ensures
            armed == (self@ is Some),
    {
        self.guard.is_some()
    }

    /// Puts `guard` into the slot and hands out the guard that was there.
    pub fn install(&mut self, guard: AsyncGuard) -> (released: Option<AsyncGuard>)
        ensures
            GuardSlot::installs(*old(self), guard, *final(self), released),
    {
        let released = self.guard.take();
        self.guard = Some(guard);
        released
    }

    /// Empties the slot and hands out the guard that was there.
    pub fn release(&mut self) -> (released: Option<AsyncGuard>)
        ensures
            GuardSlot::releases(*old(self), *final(self), released),
    {
        self.guard.take()
    }
}

/// When two guards are installed one after the other, the second
/// installation hands out the first guard, no later, and the slot then holds
/// the second guard and nothing of the first.
pub proof fn law_second_install_releases_first(
    start: GuardSlot,
    first: AsyncGuard,
    between: GuardSlot,
    released_by_first: Option<AsyncGuard>,
    second: AsyncGuard,
    end: GuardSlot,
    released_by_second: Option<AsyncGuard>,
)
    requires
        GuardSlot::installs(start, first, between, released_by_first),
        GuardSlot::installs(between, second, end, released_by_second),
    ensures
        released_by_second == Some(first),
        end@ == Some(second),
        first != second ==> end@ != Some(first),
{
}

/// An exchange neither loses nor repeats a guard: the guards that go in,
/// held and new, are the guards that come out, held and handed out.
pub proof fn law_exchange_keeps_guards(
    before: GuardSlot,
    guard: AsyncGuard,
    after: GuardSlot,
    released: Option<AsyncGuard>,
)
    ensures
        GuardSlot::installs(before, guard, after, released) ==> GuardSlot::guards(before@).insert(
            guard,
        ) =~= GuardSlot::guards(after@).add(GuardSlot::guards(released)),
        GuardSlot::releases(before, after, released) ==> GuardSlot::guards(before@)
            =~= GuardSlot::guards(after@).add(GuardSlot::guards(released)),
{
}

/// Releasing brings any slot back to the state of a slot just made: empty.
pub proof fn law_release_restores_empty(
    before: GuardSlot,
    after: GuardSlot,
    released: Option<AsyncGuard>,
    fresh: GuardSlot,
)
    requires
        GuardSlot::releases(before, after, released),
        fresh@ is None,
    ensures
        after@ == fresh@,
{
}

} // verus!
