//! Handing the port table to the process thread through a lock-free triple buffer.
use vstd::prelude::*;
use crate::client::{PortEntry, PortTable};

verus! {

#[verifier::external_type_specification]
#[verifier::external_body]
#[verifier::reject_recursive_types(T)]
pub struct ExAtomicTripleBuffer<T>(atb::AtomicTripleBuffer<T>);

#[verifier::external_type_specification]
#[verifier::external_body]
#[verifier::reject_recursive_types(T)]
pub struct ExTBBackGuard<'a, T>(atb::TBBackGuard<'a, T>);

/// Calls `AtomicTripleBuffer::back_buffers`, which locks the back and pending buffers; it
/// fails when another holder has them locked. Which buffers these are depends on the
/// process thread, so nothing is stated of their contents.
#[verifier::external_body]
fn lock_back<'a, T>(buffer: &'a atb::AtomicTripleBuffer<T>) -> (r: Option<atb::TBBackGuard<'a, T>>)
{
    buffer.back_buffers().ok()
}

/// Calls `TBBackGuard::back_mut`, which gives access to the locked back buffer.
#[verifier::external_body]
fn back_of<'a, 'g, T>(guard: &'g mut atb::TBBackGuard<'a, T>) -> (r: &'g mut T)
{
    guard.back_mut()
}

/// Calls `TBBackGuard::pending_mut`, which gives access to the pending buffer unless the
/// process thread has yet to take it over.
#[verifier::external_body]
fn pending_of<'a, 'g, T>(guard: &'g mut atb::TBBackGuard<'a, T>) -> (r: Option<&'g mut T>)
{
    guard.pending_mut()
}

/// Calls `TBBackGuard::swap`, which commits the back buffer as the next buffer the process
/// thread reads and unlocks it.
#[verifier::external_body]
fn commit_back<'a, T>(guard: atb::TBBackGuard<'a, T>)
{
    guard.swap()
}

/// Publishes `table` as the ports the process thread reads from its next cycle on.
/// Returns `false`, publishing nothing, when the back buffer is locked by another holder.
pub fn publish_ports<P>(buffer: &atb::AtomicTripleBuffer<PortTable<P>>, table: PortTable<P>) -> (r: bool)
{
    publish_locked(lock_back(buffer), table)
}

/// Publishes `table` through `guard`, the outcome of locking the back buffer: when the lock
/// was obtained, `table` becomes the back buffer, which is committed as the next buffer the
/// process thread reads. Returns whether the lock was obtained.
///
/// The contract does not state that the committed buffer holds `table`: the buffers belong
/// to the triple buffer, which the process thread shares, and what a guard's buffer holds
/// could only be named over the guard's generic table type, which a name cannot take.
pub fn publish_locked<'a, P>(guard: Option<atb::TBBackGuard<'a, PortTable<P>>>, table: PortTable<P>) -> (r: bool)
    ensures
        r == (guard is Some),
{
    match guard {
        None => false,
        Some(mut guard) => {
            let back = back_of(&mut guard);
            *back = table;
            commit_back(guard);
            true
        },
    }
}

/// One round of releasing ports that were unregistered: empties the back buffer and, when
/// the process thread has taken over the last published table, the pending buffer too.
/// Returns `None` when the back buffer is locked by another holder, otherwise whether the
/// pending buffer was emptied, after which no table that the process thread no longer uses
/// holds a port.
pub fn release_unregistered<P>(buffer: &atb::AtomicTripleBuffer<PortTable<P>>) -> (r: Option<bool>)
{
    release_locked(lock_back(buffer))
}

/// One round of releasing ports through `guard`, the outcome of locking the back buffer:
/// `None` when the lock was not obtained; otherwise the back buffer is emptied, and so is the
/// pending buffer when the process thread has taken over the last published table, which the
/// result then tells.
///
/// The contract does not state that the back buffer is emptied, for the reason given at
/// [`publish_locked`]; that the pending buffer is emptied is stated by [`release_pending`].
pub fn release_locked<'a, P>(guard: Option<atb::TBBackGuard<'a, PortTable<P>>>) -> (r: Option<bool>)
    ensures
        r is None <==> guard is None,
{
    match guard {
        None => None,
        Some(mut guard) => {
            back_of(&mut guard).clear();
            Some(release_pending(pending_of(&mut guard)))
        },
    }
}

/// Empties the pending buffer when it is free, that is when `pending` holds it; returns
/// whether it did.
pub fn release_pending<P>(pending: Option<&mut PortTable<P>>) -> (r: bool)
    ensures
        r == (pending is Some),
        pending matches Some(t) ==> mut_ref_future(t)@ == Map::<u64, PortEntry<P>>::empty(),
{
    match pending {
        Some(t) => {
            t.clear();
            true
        },
        None => false,
    }
}

/// Whether a task that releases unregistered ports is running; the client keeps at most
/// one running at a time.
#[derive(Clone, Copy, Debug, PartialEq, Eq, Structural)]
pub struct ReleaseSchedule {
    running: bool,
}

impl ReleaseSchedule {
    /// Whether a release task is running.
    pub closed spec fn spec_running(&self) -> bool {
        self.running
    }

    /// No release task is running.
    pub fn new() -> (r: ReleaseSchedule)
        ensures
            !r.spec_running(),
    {
        ReleaseSchedule { running: false }
    }

    /// Whether a release task is running.
    pub fn is_running(&self) -> (r: bool)
        ensures
            r == self.spec_running(),
    {
        self.running
    }

    /// Called after ports were unregistered: returns whether a release task must be
    /// started, which is exactly when none is running. A task is running afterwards.
    pub fn start(&mut self) -> (r: bool)
        ensures
            r == !old(self).spec_running(),
            final(self).spec_running(),
    {
        let start = !self.running;
        self.running = true;
        start
    }

    /// Records that the release task finished.
    pub fn finish(&mut self)
        ensures
            !final(self).spec_running(),
    {
        self.running = false;
    }
}

} // verus!
