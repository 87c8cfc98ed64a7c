//! Shared state cells with coalesced change notification.
//!
//! An [`Entity`] is a strong, owning handle to a reference-counted,
//! lock-guarded value paired with a version counter. Committing an update
//! advances the version exactly once, however many fields the update
//! touched; that advance is the cell's change notification. A
//! [`Subscriber`] observes the signal by polling: it wakes exactly when the
//! version differs from the last one it saw, so any number of updates
//! between two polls is observed as one wakeup, never one per update.
//! A [`WeakEntity`] is a non-owning, identity-preserving handle; upgrading
//! it fails, non-fatally, once every strong handle has been dropped.
//!
//! The sequential semantics of a cell — what a committed update does to the
//! guarded value and its version — lives in [`Versioned`], which is what
//! the handles keep behind the lock; the laws about coalescing and about
//! reads reflecting the last committed update are proved over it.

use vstd::prelude::*;
use std::sync::Arc;
use std::sync::Mutex;
use std::sync::Weak;
use crate::errors::Error;

verus! {

#[verifier::external_type_specification]
#[verifier::external_body]
#[verifier::reject_recursive_types(T)]
pub struct ExMutex<T: ?Sized>(Mutex<T>);

/// Holds the non-owning counterpart of the cell storage. The std type
/// carries an allocator parameter that Verus refuses to declare, so it is
/// kept opaque behind this struct; the wrappers below are its only doors.
#[verifier::external_body]
#[verifier::reject_recursive_types(T)]
struct WeakStorage<T>(Weak<Mutex<Versioned<T>>>);

/// Relies on rand::random to draw a fresh cell identity; nothing is assumed
/// of the value drawn. Its thread-local generator's first use panics if the
/// operating system's randomness source cannot be initialized — an
/// environmental failure on par with running out of memory, possible on no
/// supported platform.
pub assume_specification<T>[ rand::random::<T> ]() -> (r: T)
    where
        rand::distributions::Standard: rand::distributions::Distribution<T>,
;

/// The version counter after one more committed update. Every committed
/// update changes the counter; it wraps only after `u64::MAX` updates.
pub open spec fn next_version(v: u64) -> u64 {
    if v == u64::MAX {
        0
    } else {
        (v + 1) as u64
    }
}

/// Whether a poll of the change signal wakes: the cell's version differs
/// from the version the subscriber last saw.
pub open spec fn wakes(seen: u64, version: u64) -> bool {
    seen != version
}

/// A guarded value together with the count of committed updates. This is
/// what a cell keeps behind its lock; one `store` is one committed update
/// and publishes exactly one change notification.
pub struct Versioned<T> {
    pub value: T,
    pub version: u64,
}

impl<T> Versioned<T> {
    /// A fresh guarded value with no committed update yet.
    pub fn new(value: T) -> (r: Versioned<T>)
        ensures
            r.value == value,
            r.version == 0,
    {
        Versioned { value, version: 0 }
    }

    /// Commit one update: replace the value and advance the version exactly
    /// once.
    pub fn store(&mut self, value: T)
        ensures
            final(self).value == value,
            final(self).version == next_version(old(self).version),
    {
        self.value = value;
        self.version = if self.version == u64::MAX {
            0
        } else {
            self.version + 1
        };
    }
}

/// The guarded state after a sequence of committed updates, applied oldest
/// first.
pub open spec fn committed<T>(cell: Versioned<T>, updates: Seq<T>) -> Versioned<T>
    decreases updates.len(),
{
    if updates.len() == 0 {
        cell
    } else {
        committed(
            Versioned { value: updates[0], version: next_version(cell.version) },
            updates.drop_first(),
        )
    }
}

/// A read after any sequence of committed updates returns the value of the
/// last committed update — never an intermediate or partially applied one.
pub proof fn lemma_read_reflects_last_update<T>(cell: Versioned<T>, updates: Seq<T>)
    requires
        updates.len() > 0,
    ensures
        committed(cell, updates).value == updates.last(),
    decreases updates.len(),
{
    let stepped = Versioned { value: updates[0], version: next_version(cell.version) };
    if updates.len() > 1 {
        lemma_read_reflects_last_update(stepped, updates.drop_first());
        assert(updates.drop_first().last() == updates.last());
    } else {
        assert(updates.drop_first().len() == 0);
        assert(committed(stepped, updates.drop_first()) == stepped);
    }
}

/// The version counter after `k` committed updates.
pub open spec fn version_after(v0: u64, k: nat) -> u64
    decreases k,
{
    if k == 0 {
        v0
    } else {
        next_version(version_after(v0, (k - 1) as nat))
    }
}

/// The version counter after `k` committed updates, written as a sum that
/// wraps at most once while `k` stays below the counter's period.
spec fn wrapped_sum(v0: u64, k: nat) -> int {
    if v0 + k <= u64::MAX {
        v0 + k
    } else {
        v0 + k - 0x1_0000_0000_0000_0000
    }
}

proof fn lemma_version_after_is_wrapped_sum(v0: u64, k: nat)
    requires
        k < 0x1_0000_0000_0000_0000,
    ensures
        version_after(v0, k) == wrapped_sum(v0, k),
    decreases k,
{
    if k > 0 {
        lemma_version_after_is_wrapped_sum(v0, (k - 1) as nat);
    }
}

/// Coalescing: however many updates were committed since a subscriber last
/// observed the cell — at least one, and fewer than the counter's period —
/// the next poll cycle observes exactly one wakeup: the first poll wakes,
/// and a second poll with no further update in between does not.
pub proof fn lemma_wakeups_coalesce(seen: u64, k: nat)
    requires
        1 <= k < 0x1_0000_0000_0000_0000,
    ensures
        wakes(seen, version_after(seen, k)),
        !wakes(version_after(seen, k), version_after(seen, k)),
{
    lemma_version_after_is_wrapped_sum(seen, k);
}

proof fn lemma_version_after_shifts(v0: u64, k: nat)
    ensures
        version_after(next_version(v0), k) == next_version(version_after(v0, k)),
    decreases k,
{
    if k > 0 {
        lemma_version_after_shifts(v0, (k - 1) as nat);
    }
}

/// Committing a sequence of updates advances the version counter exactly
/// once per update.
pub proof fn lemma_version_counts_updates<T>(cell: Versioned<T>, updates: Seq<T>)
    ensures
        committed(cell, updates).version == version_after(cell.version, updates.len()),
    decreases updates.len(),
{
    if updates.len() > 0 {
        let stepped = Versioned { value: updates[0], version: next_version(cell.version) };
        lemma_version_counts_updates(stepped, updates.drop_first());
        lemma_version_after_shifts(cell.version, (updates.len() - 1) as nat);
    }
}

/// The coalescing law, end to end: commit any sequence of updates — at
/// least one, fewer than the version counter's period — to a cell whose
/// version a subscriber has seen. The subscriber's next poll observes
/// exactly one wakeup for the whole batch: it wakes, and a second poll with
/// no update in between does not.
pub proof fn lemma_one_wakeup_per_poll_cycle<T>(cell: Versioned<T>, updates: Seq<T>)
    requires
        1 <= updates.len() < 0x1_0000_0000_0000_0000,
    ensures
        wakes(cell.version, committed(cell, updates).version),
        !wakes(committed(cell, updates).version, committed(cell, updates).version),
{
    lemma_version_counts_updates(cell, updates);
    lemma_wakeups_coalesce(cell.version, updates.len());
}

/// Relies on std::sync::Mutex::new to build the shared guarded storage.
#[verifier::external_body]
fn mutex_new<T>(v: Versioned<T>) -> Mutex<Versioned<T>> {
    Mutex::new(v)
}

/// Relies on std::sync::Mutex::lock: returns a snapshot of the guarded
/// value and its version; the only failure is a poisoned lock. Which
/// snapshot comes back depends on every other handle to the cell, so
/// nothing is assumed of it.
#[verifier::external_body]
fn lock_snapshot<T: Clone>(m: &Mutex<Versioned<T>>) -> (r: Result<(T, u64), Error>)
    ensures
        r matches Err(e) ==> e == Error::LockPoisoned,
{
    match m.lock() {
        Ok(guard) => Ok((guard.value.clone(), guard.version)),
        Err(_) => Err(Error::LockPoisoned),
    }
}

/// Relies on std::sync::Mutex::lock: commits one update to the guarded
/// state, under the lock; the only failure is a poisoned lock. The commit
/// itself is the verified `Versioned::store`; what is trusted here is only
/// that it runs once, inside the critical section — the commit cannot be
/// hoisted out, since with this lock it must happen while the lock is held.
#[verifier::external_body]
fn lock_store<T>(m: &Mutex<Versioned<T>>, value: T) -> (r: Result<(), Error>)
    ensures
        r matches Err(e) ==> e == Error::LockPoisoned,
{
    match m.lock() {
        Ok(mut guard) => {
            guard.store(value);
            Ok(())
        },
        Err(_) => Err(Error::LockPoisoned),
    }
}

/// Relies on std::sync::Mutex::lock: reads the current version counter;
/// the only failure is a poisoned lock. The counter read depends on every
/// other handle to the cell, so nothing is assumed of it.
#[verifier::external_body]
fn lock_version<T>(m: &Mutex<Versioned<T>>) -> (r: Result<u64, Error>)
    ensures
        r matches Err(e) ==> e == Error::LockPoisoned,
{
    match m.lock() {
        Ok(guard) => Ok(guard.version),
        Err(_) => Err(Error::LockPoisoned),
    }
}

/// Relies on std::sync::Arc::clone: another strong handle to the same
/// storage.
#[verifier::external_body]
fn arc_clone<T>(a: &Arc<T>) -> Arc<T> {
    Arc::clone(a)
}

/// Relies on std::sync::Arc::downgrade: a non-owning handle to the same
/// storage, which never keeps it alive.
#[verifier::external_body]
fn arc_downgrade<T>(a: &Arc<Mutex<Versioned<T>>>) -> WeakStorage<T> {
    WeakStorage(Arc::downgrade(a))
}

/// Relies on std::sync::Weak::upgrade: yields a strong handle exactly while
/// strong handles to the storage remain. Whether any remain depends on
/// every other handle, so nothing is assumed of the outcome.
#[verifier::external_body]
fn weak_upgrade<T>(w: &WeakStorage<T>) -> Option<Arc<Mutex<Versioned<T>>>> {
    w.0.upgrade()
}

/// Relies on std::sync::Weak::clone: another non-owning handle to the same
/// storage.
#[verifier::external_body]
fn weak_clone<T>(w: &WeakStorage<T>) -> WeakStorage<T> {
    WeakStorage(Weak::clone(&w.0))
}

/// A strong, owning handle to a shared state cell. Every strong handle
/// sharing an identity observes the same guarded value and the same change
/// signal; the value is destroyed when the last strong handle is dropped.
#[verifier::reject_recursive_types(T)]
pub struct Entity<T> {
    id: u64,
    cell: Arc<Mutex<Versioned<T>>>,
}

/// A non-owning handle to a shared state cell. It preserves the cell's
/// identity but never keeps the value alive.
#[verifier::reject_recursive_types(T)]
pub struct WeakEntity<T> {
    id: u64,
    cell: WeakStorage<T>,
}

/// A receiver of a cell's coalesced change signal. If any number of updates
/// are committed before the receiver is next polled, it observes one
/// wakeup, not one per update; a consumer re-reads current state rather
/// than replaying deltas.
#[verifier::reject_recursive_types(T)]
pub struct Subscriber<T> {
    cell: Arc<Mutex<Versioned<T>>>,
    last_seen: u64,
}

impl<T> Entity<T> {
    /// The cell identity this handle refers to.
    pub closed spec fn id_spec(&self) -> u64 {
        self.id
    }

    /// Create a cell holding `value`. Always succeeds. The identity is a
    /// random draw: no process-wide counter can live here, so distinctness
    /// from every other live identity is overwhelmingly likely rather than
    /// guaranteed — and no contract claims it. The handles themselves never
    /// compare identities: aliasing is decided by the shared storage.
    pub fn new(value: T) -> Entity<T> {
        let id = rand::random::<u64>();
        let cell = Arc::new(mutex_new(Versioned::new(value)));
        Entity { id, cell }
    }

    /// The shared guarded storage, for sibling modules that commit one
    /// named verified step under a single lock acquisition.
    pub(crate) fn storage(&self) -> &Arc<Mutex<Versioned<T>>> {
        &self.cell
    }

    /// The identity of the cell.
    pub fn entity_id(&self) -> (r: u64)
        ensures
            r == self.id_spec(),
    {
        self.id
    }

    /// Read a snapshot of the current value. Fails only when a prior
    /// exclusive access left the guarded value torn.
    pub fn read(&self) -> (r: Result<T, Error>) where T: Clone
        ensures
            r matches Err(e) ==> e == Error::LockPoisoned,
    {
        match lock_snapshot(&self.cell) {
            Ok((value, _)) => Ok(value),
            Err(e) => Err(e),
        }
    }

    /// Commit one update: replace the guarded value and publish exactly one
    /// change notification, however many fields changed. Fails only when a
    /// prior exclusive access left the guarded value torn.
    ///
    /// An update replaces the whole value, so a read-modify-write sequence
    /// spans two critical sections; writers that must not lose each other's
    /// steps should own disjoint cells or route their mutations through one
    /// task. A mutator run under the lock itself would have to be trusted
    /// wholesale, which this crate avoids.
    pub fn update(&self, value: T) -> (r: Result<(), Error>)
        ensures
            r matches Err(e) ==> e == Error::LockPoisoned,
    {
        lock_store(&self.cell, value)
    }

    /// Subscribe to the cell's coalesced change signal, starting from the
    /// state the cell is in now.
    pub fn subscribe(&self) -> (r: Result<Subscriber<T>, Error>)
        ensures
            r matches Err(e) ==> e == Error::LockPoisoned,
    {
        let version = lock_version(&self.cell)?;
        Ok(Subscriber { cell: arc_clone(&self.cell), last_seen: version })
    }

    /// A non-owning handle to the same cell, preserving its identity.
    pub fn downgrade(&self) -> (w: WeakEntity<T>)
        ensures
            w.id_spec() == self.id_spec(),
    {
        WeakEntity { id: self.id, cell: arc_downgrade(&self.cell) }
    }
}

impl<T> Clone for Entity<T> {
    /// Another strong handle to the same cell, with the same identity.
    fn clone(&self) -> (r: Self)
        ensures
            r.id_spec() == self.id_spec(),
    {
        Entity { id: self.id, cell: arc_clone(&self.cell) }
    }
}

impl<T> WeakEntity<T> {
    /// The cell identity this handle refers to.
    pub closed spec fn id_spec(&self) -> u64 {
        self.id
    }

    /// The identity of the cell, still available after its destruction.
    pub fn entity_id(&self) -> (r: u64)
        ensures
            r == self.id_spec(),
    {
        self.id
    }

    /// Upgrade to a strong handle of the same identity. Fails, non-fatally,
    /// once every strong handle for this identity has been dropped.
    pub fn upgrade(&self) -> (r: Option<Entity<T>>)
        ensures
            r matches Some(e) ==> e.id_spec() == self.id_spec(),
    {
        match weak_upgrade(&self.cell) {
            Some(cell) => Some(Entity { id: self.id, cell }),
            None => None,
        }
    }
}

impl<T> Clone for WeakEntity<T> {
    /// Another non-owning handle to the same cell, with the same identity.
    fn clone(&self) -> (r: Self)
        ensures
            r.id_spec() == self.id_spec(),
    {
        WeakEntity { id: self.id, cell: weak_clone(&self.cell) }
    }
}

impl<T> Subscriber<T> {
    /// The version of the cell this subscriber observed last.
    pub closed spec fn last_seen_spec(&self) -> u64 {
        self.last_seen
    }

    /// Poll the coalesced change signal once. The poll wakes exactly when
    /// the cell's current version differs from the last one this subscriber
    /// saw — one wakeup per poll cycle, however many updates were committed
    /// in between — and that current version then counts as seen.
    pub fn poll(&mut self) -> (r: Result<bool, Error>)
        ensures
            r matches Ok(woke) ==> woke == wakes(
                old(self).last_seen_spec(),
                final(self).last_seen_spec(),
            ),
            r matches Err(e) ==> e == Error::LockPoisoned && final(self).last_seen_spec() == old(
                self,
            ).last_seen_spec(),
    {
        let version = lock_version(&self.cell)?;
        let woke = version != self.last_seen;
        self.last_seen = version;
        Ok(woke)
    }
}

/// The bookkeeping a reference-counted cell does on its strong handles:
/// `strong` counts the live owning handles, and the guarded value exists
/// exactly while the count is positive. Upgrading a weak handle succeeds
/// if and only if some strong handle remains.
pub struct HandleCount {
    strong: u64,
}

impl HandleCount {
    /// The number of live strong handles.
    pub closed spec fn strong_spec(&self) -> u64 {
        self.strong
    }

    /// Creating a cell creates its first strong handle.
    pub fn on_create() -> (r: HandleCount)
        ensures
            r.strong_spec() == 1,
    {
        HandleCount { strong: 1 }
    }

    /// Cloning a strong handle increases the owner count.
    pub fn on_clone(&mut self)
        requires
            1 <= old(self).strong_spec() < u64::MAX,
        ensures
            final(self).strong_spec() == old(self).strong_spec() + 1,
    {
        self.strong = self.strong + 1;
    }

    /// Dropping a strong handle decreases the owner count; dropping the
    /// last one destroys the guarded value.
    pub fn on_drop(&mut self)
        requires
            old(self).strong_spec() >= 1,
        ensures
            final(self).strong_spec() == old(self).strong_spec() - 1,
    {
        self.strong = self.strong - 1;
    }

    /// Whether upgrading a weak handle yields a strong one: it does if and
    /// only if not every strong handle has been dropped.
    pub fn upgrade_succeeds(&self) -> (r: bool)
        ensures
            r <==> self.strong_spec() > 0,
    {
        self.strong > 0
    }
}

} // verus!
