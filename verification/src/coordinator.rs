//! The process-wide registry of lock states.
//!
//! The coordinator owns a table with one entry per lock identity: the lock's
//! status (free or held) and the set of waiter tokens recorded by acquirers
//! that have waited past the diagnostic threshold. Identities are the table's
//! indices: they are handed out in increasing order and never reused, so two
//! live handles never share one.
//!
//! All methods take `&mut self`: exclusive access to the table is the caller's
//! short-held internal lock. An embedding that shares one coordinator among
//! threads wraps it in such a lock and holds it only across a single call,
//! never across a wait.

use vstd::prelude::*;

verus! {

broadcast use vstd::seq_lib::lemma_seq_contains_after_push;

/// Status of one lock in the coordinator's table.
#[derive(Clone, Copy, PartialEq, Eq, Structural, Debug)]
pub enum LockStatus {
    Free,
    Held,
}

/// Mathematical model of one table entry: the lock's status together with the
/// set of waiter tokens recorded for it.
#[verifier::ext_equal]
pub struct EntryModel {
    pub status: LockStatus,
    pub waiters: Set<u64>,
}

/// A well-formed entry records waiters only while the lock is held: the set is
/// cleared on every release, so a free lock has none.
pub open spec fn entry_inv(e: EntryModel) -> bool {
    e.status is Free ==> e.waiters.is_empty()
}

/// A well-formed table: every entry satisfies [`entry_inv`].
pub open spec fn table_inv(t: Seq<EntryModel>) -> bool {
    forall|i: int| 0 <= i < t.len() ==> entry_inv(#[trigger] t[i])
}

/// `k` names an entry of the table `t`.
pub open spec fn valid_identity(t: Seq<EntryModel>, k: int) -> bool {
    0 <= k < t.len()
}

/// The identity that the next registration will return.
pub open spec fn next_identity(t: Seq<EntryModel>) -> int {
    t.len() as int
}

/// A free-to-held transition is enabled exactly when the lock is free.
pub open spec fn can_acquire(t: Seq<EntryModel>, k: int) -> bool {
    t[k].status is Free
}

/// The table after registering a fresh lock: one more entry, free and without
/// waiters.
pub open spec fn register_step(t: Seq<EntryModel>) -> Seq<EntryModel> {
    t.push(EntryModel { status: LockStatus::Free, waiters: Set::empty() })
}

/// The table after a successful free-to-held transition of `k`.
pub open spec fn acquire_step(t: Seq<EntryModel>, k: int) -> Seq<EntryModel> {
    t.update(k, EntryModel { status: LockStatus::Held, waiters: t[k].waiters })
}

/// The table after a release of `k`: free again, waiters cleared.
pub open spec fn release_step(t: Seq<EntryModel>, k: int) -> Seq<EntryModel> {
    t.update(k, EntryModel { status: LockStatus::Free, waiters: Set::empty() })
}

/// The table after recording `w` as a waiter of `k`.
pub open spec fn subscribe_step(t: Seq<EntryModel>, k: int, w: u64) -> Seq<EntryModel> {
    t.update(k, EntryModel { status: t[k].status, waiters: t[k].waiters.insert(w) })
}

/// One table entry as stored: the status, and the waiter tokens as a
/// duplicate-free vector standing for their set.
pub struct LockEntry {
    status: LockStatus,
    waiters: Vec<u64>,
}

impl View for LockEntry {
    type V = EntryModel;

    closed spec fn view(&self) -> EntryModel {
        EntryModel { status: self.status, waiters: self.waiters@.to_set() }
    }
}

/// A lock is contended when it is held and at least one acquirer has waited
/// past the diagnostic threshold.
pub open spec fn contended(t: Seq<EntryModel>, k: int) -> bool {
    valid_identity(t, k) && t[k].status is Held && !t[k].waiters.is_empty()
}

/// `report` lists exactly the contended identities of `t`, in increasing
/// order.
pub open spec fn is_contention_report(t: Seq<EntryModel>, report: Seq<usize>) -> bool {
    &&& forall|j: int| 0 <= j < report.len() ==> contended(t, #[trigger] report[j] as int)
    &&& forall|k: usize| contended(t, k as int) ==> report.contains(k)
    &&& forall|j1: int, j2: int| 0 <= j1 < j2 < report.len() ==> report[j1] < report[j2]
}

/// Whether `token` occurs in `v`.
fn contains_token(v: &Vec<u64>, token: u64) -> (r: bool)
    ensures
        r == v@.contains(token),
{
    let mut i: usize = 0;
    let mut present = false;
    while i < v.len()
        invariant
            0 <= i <= v@.len(),
            present == exists|j: int| 0 <= j < i && v@[j] == token,
        decreases v@.len() - i,
    {
        if v[i] == token {
            present = true;
        }
        i += 1;
    }
    present
}

/// The registry shared by every lock handle in the process: a table from lock
/// identity to lock state.
pub struct Coordinator {
    table: Vec<LockEntry>,
}

impl View for Coordinator {
    type V = Seq<EntryModel>;

    closed spec fn view(&self) -> Seq<EntryModel> {
        self.table@.map_values(|e: LockEntry| e@)
    }
}

impl Coordinator {
    /// An empty registry: no identities handed out yet.
    pub fn new() -> (c: Coordinator)
        ensures
            c@ == Seq::<EntryModel>::empty(),
            table_inv(c@),
    {
        let c = Coordinator { table: Vec::new() };
        proof {
            assert(c@ =~= Seq::<EntryModel>::empty());
        }
        c
    }

    /// Allocates a fresh, never-yet-used identity and inserts a free lock
    /// state for it. The identity is the index of the new entry, so it differs
    /// from every identity handed out before.
    pub fn register(&mut self) -> (key: usize)
        requires
            table_inv(old(self)@),
        ensures
            key == next_identity(old(self)@),
            final(self)@ == register_step(old(self)@),
            table_inv(final(self)@),
            valid_identity(final(self)@, key as int),
            can_acquire(final(self)@, key as int),
    {
        let key = self.table.len();
        self.table.push(LockEntry { status: LockStatus::Free, waiters: Vec::new() });
        proof {
            assert(Seq::<u64>::empty().to_set() =~= Set::<u64>::empty());
            assert(self@ =~~= register_step(old(self)@));
        }
        key
    }

    /// How many identities have been handed out; every identity below this
    /// count names an entry of the table.
    pub fn identity_count(&self) -> (n: usize)
        ensures
            n == self@.len(),
    {
        self.table.len()
    }

    /// Whether the lock `key` is currently held.
    pub fn is_held(&self, key: usize) -> (r: bool)
        requires
            valid_identity(self@, key as int),
        ensures
            r == (self@[key as int].status is Held),
    {
        let entry = &self.table[key];
        match entry.status {
            LockStatus::Held => true,
            LockStatus::Free => false,
        }
    }

    /// The non-blocking free-to-held transition for identity `key`: succeeds
    /// exactly when the lock is free, and is a no-op otherwise.
    pub fn try_write_lock(&mut self, key: usize) -> (r: bool)
        requires
            table_inv(old(self)@),
            valid_identity(old(self)@, key as int),
        ensures
            r == can_acquire(old(self)@, key as int),
            r ==> final(self)@ == acquire_step(old(self)@, key as int),
            !r ==> final(self)@ == old(self)@,
            table_inv(final(self)@),
    {
        let entry = &mut self.table[key];
        match entry.status {
            LockStatus::Free => {
                entry.status = LockStatus::Held;
                proof {
                    assert(self@ =~~= acquire_step(old(self)@, key as int));
                }
                true
            }
            LockStatus::Held => {
                proof {
                    assert(self@ =~~= old(self)@);
                }
                false
            }
        }
    }

    /// Records `token` as a waiter of the held lock `key`: the acquirer behind
    /// the token has waited past the diagnostic threshold. Waiters are only
    /// recorded while the lock is held; a release clears them.
    pub fn subscribe_write(&mut self, key: usize, token: u64)
        requires
            table_inv(old(self)@),
            valid_identity(old(self)@, key as int),
            old(self)@[key as int].status is Held,
        ensures
            final(self)@ == subscribe_step(old(self)@, key as int, token),
            table_inv(final(self)@),
    {
        let present = contains_token(&self.table[key].waiters, token);
        if present {
            proof {
                assert(self@[key as int].waiters =~= self@[key as int].waiters.insert(token));
                assert(self@ =~~= subscribe_step(old(self)@, key as int, token));
            }
        } else {
            let entry = &mut self.table[key];
            entry.waiters.push(token);
            proof {
                let s0 = old(self).table@[key as int].waiters@;
                assert(self.table@[key as int].waiters@ == s0.push(token));
                assert(self@[key as int].waiters
                    =~= old(self)@[key as int].waiters.insert(token));
                assert(self@ =~~= subscribe_step(old(self)@, key as int, token));
            }
        }
    }

    /// The held-to-free transition for identity `key`: unconditionally marks
    /// the lock free and clears its waiter set.
    pub fn unlock(&mut self, key: usize)
        requires
            table_inv(old(self)@),
            valid_identity(old(self)@, key as int),
        ensures
            final(self)@ == release_step(old(self)@, key as int),
            table_inv(final(self)@),
            can_acquire(final(self)@, key as int),
    {
        let entry = &mut self.table[key];
        entry.status = LockStatus::Free;
        entry.waiters.clear();
        proof {
            assert(Seq::<u64>::empty().to_set() =~= Set::<u64>::empty());
            assert(self@ =~~= release_step(old(self)@, key as int));
        }
    }

    /// One bounded pass over the whole table: reports the identities of every
    /// contended lock (held, with at least one recorded waiter), in increasing
    /// order. This is the diagnostic routine an acquirer invokes after it has
    /// waited past the threshold; what a caller does with the report (log it,
    /// emit metrics, abort) is its own business.
    pub fn analyse(&self) -> (report: Vec<usize>)
        ensures
            is_contention_report(self@, report@),
    {
        let mut report: Vec<usize> = Vec::new();
        let n = self.table.len();
        let mut i: usize = 0;
        while i < n
            invariant
                n == self@.len(),
                self@.len() == self.table@.len(),
                0 <= i <= n,
                forall|j: int| 0 <= j < report@.len()
                    ==> contended(self@, #[trigger] report@[j] as int) && report@[j] < i,
                forall|k: usize| k < i && contended(self@, k as int) ==> report@.contains(k),
                forall|j1: int, j2: int| 0 <= j1 < j2 < report@.len() ==> report@[j1] < report@[j2],
            decreases n - i,
        {
            let entry = &self.table[i];
            let held = entry.status == LockStatus::Held;
            if held && entry.waiters.len() > 0 {
                proof {
                    assert(self@[i as int].waiters.contains(self.table@[i as int].waiters@[0]));
                }
                report.push(i);
            } else {
                proof {
                    if held {
                        assert(self.table@[i as int].waiters@.to_set() =~= Set::<u64>::empty());
                    }
                    assert(!contended(self@, i as int));
                }
            }
            i += 1;
        }
        report
    }
}

/// Mutual exclusion. A free-to-held transition is enabled only while the lock
/// is free, so of two contending acquirers at most one can win: as soon as one
/// does, the transition is disabled for the other until the winner releases,
/// and releasing enables it again.
pub proof fn lemma_mutual_exclusion(t: Seq<EntryModel>, k: int)
    requires
        valid_identity(t, k),
        can_acquire(t, k),
    ensures
        !can_acquire(acquire_step(t, k), k),
        can_acquire(release_step(acquire_step(t, k), k), k),
{
}

/// Independence. A transition of one lock leaves every other lock's entry
/// untouched, never changes whether another lock can be acquired, and two
/// acquisitions of distinct locks commute.
pub proof fn lemma_independence(t: Seq<EntryModel>, k1: int, k2: int, w: u64)
    requires
        valid_identity(t, k1),
        valid_identity(t, k2),
        k1 != k2,
    ensures
        acquire_step(t, k1)[k2] == t[k2],
        release_step(t, k1)[k2] == t[k2],
        subscribe_step(t, k1, w)[k2] == t[k2],
        can_acquire(acquire_step(t, k1), k2) == can_acquire(t, k2),
        can_acquire(release_step(t, k1), k2) == can_acquire(t, k2),
        acquire_step(acquire_step(t, k1), k2) == acquire_step(acquire_step(t, k2), k1),
{
    assert(acquire_step(acquire_step(t, k1), k2) =~~= acquire_step(acquire_step(t, k2), k1));
}

/// Waiter lifecycle. Recording a waiter only grows a lock's waiter set — and
/// recording happens only while the lock is held, since
/// [`Coordinator::subscribe_write`] demands it — a successful acquisition
/// keeps the set as it was, and a release clears it.
pub proof fn lemma_waiter_lifecycle(t: Seq<EntryModel>, k: int, w: u64)
    requires
        valid_identity(t, k),
    ensures
        subscribe_step(t, k, w)[k].waiters == t[k].waiters.insert(w),
        t[k].waiters.subset_of(subscribe_step(t, k, w)[k].waiters),
        subscribe_step(t, k, w)[k].waiters.contains(w),
        acquire_step(t, k)[k].waiters == t[k].waiters,
        release_step(t, k)[k].waiters.is_empty(),
{
}

/// Identity uniqueness. Registration returns the table's next identity, which
/// differs from every identity already handed out; the other transitions never
/// change the next identity, and registration only grows it, so no two
/// registrations — with any transitions between them — return the same
/// identity, and destroying a handle (which performs no transition at all)
/// cannot make a live handle's identity collide.
pub proof fn lemma_identity_uniqueness(t: Seq<EntryModel>)
    ensures
        forall|k: int| valid_identity(t, k) ==> k != next_identity(t),
        next_identity(register_step(t)) == next_identity(t) + 1,
        forall|k: int| valid_identity(t, k)
            ==> valid_identity(register_step(t), k) && register_step(t)[k] == t[k],
        forall|k: int| valid_identity(t, k)
            ==> next_identity(#[trigger] acquire_step(t, k)) == next_identity(t),
        forall|k: int| valid_identity(t, k)
            ==> next_identity(#[trigger] release_step(t, k)) == next_identity(t),
        forall|k: int, w: u64| valid_identity(t, k)
            ==> next_identity(#[trigger] subscribe_step(t, k, w)) == next_identity(t),
{
}

} // verus!
