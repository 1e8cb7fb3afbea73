//! The user-facing exclusive-lock handle and its guard.
//!
//! A [`Mutex`] wraps a protected value and delegates every status transition
//! to a [`Coordinator`]. A successful acquisition moves the value into a
//! [`MutexGuard`], the only evidence that the lock is held; releasing the
//! guard moves the value back and frees the lock. If the releasing thread is
//! unwinding abnormally, the handle's sticky `poisoned` flag is set, and every
//! later operation reports it — access is still granted, so a caller may
//! recover the value and decide for itself.
//!
//! Each operation takes the coordinator by `&mut`: exclusive access to the
//! shared table is the embedding's short-held internal lock, acquired for one
//! call at a time and never held across a wait.

use vstd::prelude::*;

use crate::coordinator::Coordinator;
use crate::coordinator::EntryModel;
use crate::coordinator::acquire_step;
use crate::coordinator::can_acquire;
use crate::coordinator::is_contention_report;
use crate::coordinator::next_identity;
use crate::coordinator::register_step;
use crate::coordinator::release_step;
use crate::coordinator::subscribe_step;
use crate::coordinator::table_inv;
use crate::coordinator::valid_identity;

verus! {

/// A warning wrapped around an otherwise-successful result: a previous holder
/// of the lock was interrupted mid-critical-section by abnormal unwind. The
/// inner value is still handed back, so the caller may recover it, inspect it
/// and decide.
pub struct PoisonError<G> {
    inner: G,
}

impl<G> PoisonError<G> {
    /// The wrapped value.
    pub closed spec fn spec_inner(self) -> G {
        self.inner
    }

    /// Wraps `inner`.
    pub fn new(inner: G) -> (e: PoisonError<G>)
        ensures
            e.spec_inner() == inner,
    {
        PoisonError { inner }
    }

    /// Unwraps the warning, recovering the value.
    pub fn into_inner(self) -> (g: G)
        ensures
            g == self.spec_inner(),
    {
        self.inner
    }

    /// A reference to the wrapped value.
    pub fn get_ref(&self) -> (g: &G)
        ensures
            *g == self.spec_inner(),
    {
        &self.inner
    }
}

/// Why a non-blocking acquisition attempt did not return an unqualified guard.
pub enum TryLockError<T> {
    /// The lock was acquired, but the handle is poisoned; the guard is inside.
    Poisoned(PoisonError<MutexGuard<T>>),
    /// The lock is currently held, and the attempt will not wait.
    WouldBlock,
}

/// What one iteration of the blocking-acquire loop decided.
pub enum LockAttempt<T> {
    /// The lock was acquired: the guard, poison-tagged if the handle is
    /// poisoned.
    Acquired(Result<MutexGuard<T>, PoisonError<MutexGuard<T>>>),
    /// The lock is held and the attempt is still under the diagnostic
    /// threshold: retry at once, without yielding.
    Retry,
    /// The lock is held and the attempt has waited past the threshold: the
    /// caller was recorded as a waiter, the analysis pass ran (its report is
    /// inside), and the caller should yield the processor before retrying.
    RetryAfterYield(Vec<usize>),
}

/// Mathematical model of a handle: its identity in the coordinator's table,
/// its sticky poison flag, and the protected value — present exactly while no
/// guard is outstanding.
#[verifier::ext_equal]
pub struct MutexModel<T> {
    pub key: int,
    pub poisoned: bool,
    pub value: Option<T>,
}

/// The handle is consistent with the coordinator's table `t`: its identity
/// names an entry, and it holds the protected value exactly while its lock is
/// free (a successful acquisition moves the value into the guard).
pub open spec fn registered<T>(m: MutexModel<T>, t: Seq<EntryModel>) -> bool {
    &&& valid_identity(t, m.key)
    &&& (m.value is Some <==> t[m.key].status is Free)
}

/// Mutual exclusion at the handle level. A guard exists exactly while the
/// protected value is out of the handle, and then the handle's lock is held in
/// the coordinator's table — so while one guard is outstanding no acquisition
/// attempt can produce a second one: [`Mutex::try_lock`] reports
/// [`TryLockError::WouldBlock`] and [`Mutex::lock_attempt`] retries.
pub proof fn lemma_guard_excludes_acquisition<T>(m: MutexModel<T>, t: Seq<EntryModel>)
    requires
        registered(m, t),
        m.value is None,
    ensures
        !can_acquire(t, m.key),
{
}

/// An instrumented exclusive lock over a value of type `T`.
///
/// The handle owns the protected value and an identity registered with the
/// coordinator; it never touches the value through the coordinator.
pub struct Mutex<T> {
    key: usize,
    poisoned: bool,
    value: Option<T>,
}

impl<T> View for Mutex<T> {
    type V = MutexModel<T>;

    closed spec fn view(&self) -> MutexModel<T> {
        MutexModel { key: self.key as int, poisoned: self.poisoned, value: self.value }
    }
}

/// Mathematical model of a guard: the identity of the lock it was acquired
/// from, and the protected value it owns.
#[verifier::ext_equal]
pub struct GuardModel<T> {
    pub key: int,
    pub value: T,
}

/// Proof of exclusivity: the guard owns the protected value for its lifetime,
/// and its existence is the only evidence that its lock is held.
pub struct MutexGuard<T> {
    key: usize,
    value: T,
}

impl<T> View for MutexGuard<T> {
    type V = GuardModel<T>;

    closed spec fn view(&self) -> GuardModel<T> {
        GuardModel { key: self.key as int, value: self.value }
    }
}

impl<T> MutexGuard<T> {
    /// Read access to the protected value.
    pub fn get(&self) -> (v: &T)
        ensures
            *v == self@.value,
    {
        &self.value
    }

    /// Write access to the protected value.
    pub fn get_mut(&mut self) -> (v: &mut T)
        ensures
            *v == old(self)@.value,
            final(self)@.value == *final(v),
            final(self)@.key == old(self)@.key,
    {
        &mut self.value
    }
}

impl<T> Mutex<T> {
    /// Wraps `value` in a fresh handle: registers a new identity with the
    /// coordinator and starts unpoisoned with the lock free.
    pub fn new(value: T, coord: &mut Coordinator) -> (m: Mutex<T>)
        requires
            table_inv(old(coord)@),
        ensures
            final(coord)@ == register_step(old(coord)@),
            table_inv(final(coord)@),
            m@.key == next_identity(old(coord)@),
            m@.value == Some(value),
            !m@.poisoned,
            registered(m@, final(coord)@),
    {
        let key = coord.register();
        Mutex { key, poisoned: false, value: Some(value) }
    }

    /// Whether a previous holder of the lock was interrupted by abnormal
    /// unwind while holding the guard. Sticky: once set it never resets.
    pub fn is_poisoned(&self) -> (r: bool)
        ensures
            r == self@.poisoned,
    {
        self.poisoned
    }

    /// A single non-blocking acquisition attempt.
    ///
    /// Succeeds exactly when the lock is free: the status flips to held, and
    /// the protected value moves into the returned guard — poison-tagged when
    /// the handle is poisoned, so acquisition still succeeds but is flagged.
    /// When the lock is already held, reports [`TryLockError::WouldBlock`]
    /// without waiting and changes nothing.
    pub fn try_lock(&mut self, coord: &mut Coordinator) -> (r: Result<
        MutexGuard<T>,
        TryLockError<T>,
    >)
        requires
            table_inv(old(coord)@),
            registered(old(self)@, old(coord)@),
        ensures
            table_inv(final(coord)@),
            registered(final(self)@, final(coord)@),
            final(self)@.key == old(self)@.key,
            final(self)@.poisoned == old(self)@.poisoned,
            can_acquire(old(coord)@, old(self)@.key) ==> {
                &&& final(coord)@ == acquire_step(old(coord)@, old(self)@.key)
                &&& final(self)@.value is None
                &&& match r {
                    Ok(g) => !old(self)@.poisoned && g@.key == old(self)@.key && g@.value
                        == old(self)@.value.unwrap(),
                    Err(TryLockError::Poisoned(e)) => old(self)@.poisoned
                        && e.spec_inner()@.key == old(self)@.key && e.spec_inner()@.value
                        == old(self)@.value.unwrap(),
                    Err(TryLockError::WouldBlock) => false,
                }
            },
            !can_acquire(old(coord)@, old(self)@.key) ==> {
                &&& final(coord)@ == old(coord)@
                &&& final(self)@ == old(self)@
                &&& (r matches Err(TryLockError::WouldBlock))
            },
    {
        if coord.try_write_lock(self.key) {
            let value = self.value.take();
            let guard = MutexGuard { key: self.key, value: value.unwrap() };
            if self.poisoned {
                Err(TryLockError::Poisoned(PoisonError::new(guard)))
            } else {
                Ok(guard)
            }
        } else {
            Err(TryLockError::WouldBlock)
        }
    }

    /// One iteration of the blocking-acquire loop.
    ///
    /// Attempts the free-to-held transition. On success the guard comes back
    /// as in [`Mutex::try_lock`], wrapped in [`LockAttempt::Acquired`]. On
    /// failure, when the attempt has waited past the diagnostic threshold
    /// (`past_threshold`, measured by the caller against its own start time),
    /// the calling thread's `waiter` token is recorded for this lock and the
    /// analysis pass runs while the table access is still held; the caller
    /// should then yield before retrying. Under the threshold nothing changes:
    /// retry at once.
    ///
    /// The embedding's blocking `lock` drives this in a loop until it returns
    /// [`LockAttempt::Acquired`]; whenever the lock is free at the attempt,
    /// acquisition succeeds, so the loop makes progress as soon as a holder
    /// releases.
    pub fn lock_attempt(
        &mut self,
        coord: &mut Coordinator,
        past_threshold: bool,
        waiter: u64,
    ) -> (r: LockAttempt<T>)
        requires
            table_inv(old(coord)@),
            registered(old(self)@, old(coord)@),
        ensures
            table_inv(final(coord)@),
            registered(final(self)@, final(coord)@),
            final(self)@.key == old(self)@.key,
            final(self)@.poisoned == old(self)@.poisoned,
            can_acquire(old(coord)@, old(self)@.key) ==> {
                &&& final(coord)@ == acquire_step(old(coord)@, old(self)@.key)
                &&& final(self)@.value is None
                &&& match r {
                    LockAttempt::Acquired(Ok(g)) => !old(self)@.poisoned && g@.key == old(
                        self,
                    )@.key && g@.value == old(self)@.value.unwrap(),
                    LockAttempt::Acquired(Err(e)) => old(self)@.poisoned
                        && e.spec_inner()@.key == old(self)@.key && e.spec_inner()@.value
                        == old(self)@.value.unwrap(),
                    _ => false,
                }
            },
            !can_acquire(old(coord)@, old(self)@.key) ==> final(self)@ == old(self)@,
            !can_acquire(old(coord)@, old(self)@.key) && past_threshold ==> {
                &&& final(coord)@ == subscribe_step(old(coord)@, old(self)@.key, waiter)
                &&& match r {
                    LockAttempt::RetryAfterYield(report) => is_contention_report(
                        final(coord)@,
                        report@,
                    ),
                    _ => false,
                }
            },
            !can_acquire(old(coord)@, old(self)@.key) && !past_threshold ==> {
                &&& final(coord)@ == old(coord)@
                &&& (r matches LockAttempt::Retry)
            },
    {
        if coord.try_write_lock(self.key) {
            let value = self.value.take();
            let guard = MutexGuard { key: self.key, value: value.unwrap() };
            if self.poisoned {
                LockAttempt::Acquired(Err(PoisonError::new(guard)))
            } else {
                LockAttempt::Acquired(Ok(guard))
            }
        } else if past_threshold {
            coord.subscribe_write(self.key, waiter);
            let report = coord.analyse();
            LockAttempt::RetryAfterYield(report)
        } else {
            LockAttempt::Retry
        }
    }

    /// Releases `guard`, moving the protected value back into the handle and
    /// freeing the lock (which also clears its recorded waiters). When the
    /// releasing thread is unwinding abnormally (`panicking`, measured by the
    /// caller), the handle's sticky poison flag is set, so every subsequent
    /// acquirer observes the poisoning together with the now-free status; the
    /// flag is never cleared otherwise.
    pub fn release(&mut self, guard: MutexGuard<T>, coord: &mut Coordinator, panicking: bool)
        requires
            table_inv(old(coord)@),
            registered(old(self)@, old(coord)@),
            guard@.key == old(self)@.key,
            old(self)@.value is None,
        ensures
            table_inv(final(coord)@),
            registered(final(self)@, final(coord)@),
            final(coord)@ == release_step(old(coord)@, old(self)@.key),
            final(self)@.key == old(self)@.key,
            final(self)@.value == Some(guard@.value),
            final(self)@.poisoned == (old(self)@.poisoned || panicking),
    {
        let MutexGuard { key: _, value } = guard;
        coord.unlock(self.key);
        if panicking {
            self.poisoned = true;
        }
        self.value = Some(value);
    }

    /// Direct mutable access to the protected value, bypassing the lock: valid
    /// because the caller holds the handle exclusively and no guard is
    /// outstanding. Poisoning does not refuse access; query
    /// [`Mutex::is_poisoned`] to observe it.
    pub fn get_mut(&mut self) -> (v: &mut T)
        requires
            old(self)@.value is Some,
        ensures
            *v == old(self)@.value.unwrap(),
            final(self)@.value == Some(*final(v)),
            final(self)@.key == old(self)@.key,
            final(self)@.poisoned == old(self)@.poisoned,
    {
        self.value.as_mut().unwrap()
    }

    /// Destroys the handle, returning the protected value: wrapped in
    /// [`PoisonError`] when the sticky flag is set, plain otherwise — the
    /// value comes back either way.
    pub fn into_inner(self) -> (r: Result<T, PoisonError<T>>)
        requires
            self@.value is Some,
        ensures
            self@.poisoned ==> (r matches Err(e) && e.spec_inner() == self@.value.unwrap()),
            !self@.poisoned ==> (r matches Ok(v) && v == self@.value.unwrap()),
    {
        let Mutex { key: _, poisoned, value } = self;
        let value = value.unwrap();
        if poisoned {
            Err(PoisonError::new(value))
        } else {
            Ok(value)
        }
    }
}

} // verus!
