//! Storage contract, range clamping, and the reference in-memory backend.
//!
//! The backend's row set is an ordered sequence of rows. Callers read a
//! bounded window of it ([`get_vec_range_clamped`]) and mutate single rows by
//! stable identity ([`TableDataEntry`]). The reference backend
//! ([`MemoryStorage`]) shares one row set across all clones of the handle and
//! guards it with a reader/writer lock acquired fail-fast: an operation that
//! finds the lock held returns [`StorageError::LockContention`] at once
//! instead of blocking, so a cooperative single-threaded caller can never
//! deadlock on its own pending operations.

use vstd::math::{max, min};
use vstd::prelude::*;
use vstd::std_specs::cmp::PartialEqSpec;

verus! {

/// The start index of the clamped window: `min(s, n - 1)` on a non-empty
/// sequence (an out-of-range start still lands on the last valid index).
pub open spec fn clamped_start(n: int, s: int) -> int {
    min(s, max(n - 1, 0))
}

/// The end index of the clamped window: `min(e, n)`.
pub open spec fn clamped_end(n: int, e: int) -> int {
    min(e, n)
}

/// The clamped window of `rows` requested as `[s, e)`: empty when `rows` is
/// empty or the clamped bounds cross, otherwise `rows[min(s, n-1) .. min(e, n)]`.
pub open spec fn spec_range_clamped<T>(rows: Seq<T>, s: int, e: int) -> Seq<T> {
    let n = rows.len() as int;
    if n == 0 {
        Seq::empty()
    } else if clamped_end(n, e) <= clamped_start(n, s) {
        Seq::empty()
    } else {
        rows.subrange(clamped_start(n, s), clamped_end(n, e))
    }
}

/// The clamped window's length is `max(0, min(e, n) - min(s, max(n-1, 0)))`,
/// and every element of the window comes from a valid index of `rows`.
pub proof fn lemma_range_clamp_window<T>(rows: Seq<T>, s: int, e: int)
    requires
        0 <= s,
        0 <= e,
    ensures
        spec_range_clamped(rows, s, e).len() == max(
            0,
            clamped_end(rows.len() as int, e) - clamped_start(rows.len() as int, s),
        ),
        forall|i: int|
            0 <= i < spec_range_clamped(rows, s, e).len() ==> {
                &&& 0 <= clamped_start(rows.len() as int, s) + i < rows.len()
                &&& #[trigger] spec_range_clamped(rows, s, e)[i] == rows[clamped_start(
                    rows.len() as int,
                    s,
                ) + i]
            },
{
}

/// On an empty row set the clamped window is empty for every requested range.
pub proof fn lemma_range_clamp_empty<T>(s: int, e: int)
    ensures
        spec_range_clamped(Seq::<T>::empty(), s, e) == Seq::<T>::empty(),
{
}

/// Appending one row grows the sequence by exactly one, and the window
/// requested as `[n, n+1)` afterwards holds exactly the new row.
pub proof fn lemma_append_row_retrievable<T>(rows: Seq<T>, row: T)
    ensures
        rows.push(row).len() == rows.len() + 1,
        spec_range_clamped(rows.push(row), rows.len() as int, rows.len() as int + 1) == seq![row],
{
    let grown = rows.push(row);
    let n = grown.len() as int;
    assert(spec_range_clamped(grown, n - 1, n) =~= seq![row]);
}

/// Return `vec[range.start..range.end]` where `range` is clamped to the
/// length of `vec`. Total: any range, including inverted or fully
/// out-of-bounds ones, yields a (possibly empty) window, never a panic.
pub fn get_vec_range_clamped<T: Clone>(vec: &Vec<T>, range: core::ops::Range<usize>) -> (r: Vec<T>)
    ensures
        r@.len() == spec_range_clamped(vec@, range.start as int, range.end as int).len(),
        forall|i: int|
            0 <= i < r@.len() ==> cloned::<T>(
                spec_range_clamped(vec@, range.start as int, range.end as int)[i],
                #[trigger] r@[i],
            ),
{
    let mut out: Vec<T> = Vec::new();
    if vec.len() == 0 {
        return out;
    }
    let start = if range.start < vec.len() - 1 {
        range.start
    } else {
        vec.len() - 1
    };
    let end = if range.end < vec.len() {
        range.end
    } else {
        vec.len()
    };
    if end <= start {
        return out;
    }
    let mut i: usize = start;
    while i < end
        invariant
            start <= i <= end,
            end <= vec@.len(),
            start == clamped_start(vec@.len() as int, range.start as int),
            end == clamped_end(vec@.len() as int, range.end as int),
            out@.len() == i - start,
            forall|j: int| 0 <= j < out@.len() ==> cloned::<T>(vec@[start + j], #[trigger] out@[j]),
        decreases end - i,
    {
        let x = vec[i].clone();
        out.push(x);
        i += 1;
    }
    proof {
        let w = spec_range_clamped(vec@, range.start as int, range.end as int);
        assert(w =~= vec@.subrange(start as int, end as int));
    }
    out
}

/// Failure shape shared by every storage operation.
#[derive(Clone, Copy, Debug, PartialEq, Eq, Structural)]
pub enum StorageError {
    /// A fail-fast lock acquisition found the lock held by another operation.
    /// Recoverable: the caller may simply retry.
    LockContention,
    /// Any other backend failure (I/O, validation) of a non-memory backend.
    Backend,
}

impl StorageError {
    /// A human-readable description of the failure.
    pub fn message(&self) -> (m: &'static str)
        ensures
            *self == StorageError::LockContention ==> m@ == "lock is held by another operation"@,
            *self == StorageError::Backend ==> m@ == "backend failure"@,
    {
        match self {
            StorageError::LockContention => "lock is held by another operation",
            StorageError::Backend => "backend failure",
        }
    }
}

/// Properties of an entry in a table: the capability of extracting a stable,
/// comparable key that update and removal match on.
pub trait TableDataEntry<K>: Sized where K: PartialEq + Clone {
    /// The entry's identity as a mathematical value.
    spec fn spec_key(&self) -> K;

    /// Cloned unique identifier of the entry.
    fn key(&self) -> (k: K)
        ensures
            k == self.spec_key(),
    ;
}

/// The row's identity equals `key`, in the sense of `K`'s equality.
pub open spec fn row_key_matches<T: TableDataEntry<K>, K: PartialEq + Clone>(
    row: T,
    key: K,
) -> bool {
    row.spec_key().eq_spec(&key)
}

/// Some row of `rows` has identity `key`.
pub open spec fn has_row_with_key<T: TableDataEntry<K>, K: PartialEq + Clone>(
    rows: Seq<T>,
    key: K,
) -> bool {
    exists|i: int| 0 <= i < rows.len() && #[trigger] row_key_matches(rows[i], key)
}

/// Index of the first row whose identity equals `key`, or `None` when no row
/// matches.
pub fn find_row_index<T: TableDataEntry<K>, K: PartialEq + Clone>(rows: &Vec<T>, key: &K) -> (r:
    Option<usize>)
    requires
        K::obeys_eq_spec(),
    ensures
        match r {
            Some(i) => {
                &&& i < rows@.len()
                &&& row_key_matches(rows@[i as int], *key)
                &&& forall|j: int| 0 <= j < i ==> !#[trigger] row_key_matches(rows@[j], *key)
            },
            None => !has_row_with_key(rows@, *key),
        },
{
    let mut i: usize = 0;
    while i < rows.len()
        invariant
            K::obeys_eq_spec(),
            i <= rows@.len(),
            forall|j: int| 0 <= j < i ==> !#[trigger] row_key_matches(rows@[j], *key),
        decreases rows@.len() - i,
    {
        let k = rows[i].key();
        if k == *key {
            return Some(i);
        }
        i += 1;
    }
    None
}

/// Replace the first row whose identity equals `key` with `row`. A key absent
/// from the row set leaves it unchanged; that is a successful no-op, not an
/// error.
pub fn set_row_in<T: TableDataEntry<K>, K: PartialEq + Clone>(
    rows: &mut Vec<T>,
    key: &K,
    row: T,
) -> (found: bool)
    requires
        K::obeys_eq_spec(),
    ensures
        found == has_row_with_key(old(rows)@, *key),
        !found ==> final(rows)@ == old(rows)@,
        found ==> exists|i: int|
            {
                &&& 0 <= i < old(rows)@.len()
                &&& #[trigger] row_key_matches(old(rows)@[i], *key)
                &&& forall|j: int| 0 <= j < i ==> !#[trigger] row_key_matches(old(rows)@[j], *key)
                &&& final(rows)@ == old(rows)@.update(i, row)
            },
{
    match find_row_index(rows, key) {
        Some(i) => {
            rows[i] = row;
            true
        },
        None => false,
    }
}

/// Remove the first row whose identity equals `key`, shifting later rows
/// down. A key absent from the row set leaves it unchanged; that is a
/// successful no-op, not an error.
pub fn remove_row_in<T: TableDataEntry<K>, K: PartialEq + Clone>(rows: &mut Vec<T>, key: &K) -> (
    found: bool)
    requires
        K::obeys_eq_spec(),
    ensures
        found == has_row_with_key(old(rows)@, *key),
        !found ==> final(rows)@ == old(rows)@,
        found ==> exists|i: int|
            {
                &&& 0 <= i < old(rows)@.len()
                &&& #[trigger] row_key_matches(old(rows)@[i], *key)
                &&& forall|j: int| 0 <= j < i ==> !#[trigger] row_key_matches(old(rows)@[j], *key)
                &&& final(rows)@ == old(rows)@.remove(i)
            },
{
    match find_row_index(rows, key) {
        Some(i) => {
            rows.remove(i);
            true
        },
        None => false,
    }
}

/// Append `row` at the end of the row sequence.
pub fn append_row_in<T>(rows: &mut Vec<T>, row: T)
    ensures
        final(rows)@ == old(rows)@.push(row),
{
    rows.push(row);
}

/// The main interface for a data storage or backend. Implement this to get
/// and update the data shown in a table. Every operation is fallible: a
/// backend may refuse an operation (for the reference backend, only because a
/// fail-fast lock acquisition found the lock held).
pub trait TableDataStorage<T, K>: Sized + Clone where
    T: core::fmt::Debug + PartialEq + Clone,
    K: PartialEq + Clone,
 {
    /// Get the data rows for the table specified by `range`. The range is
    /// determined by the visible rows and used to virtualize the table; it
    /// may be out of bounds and is clamped against the backend's current row
    /// count, never trusted as-is. Does not mutate the row set: any rows
    /// returned are (clones of) the clamped window of some row sequence.
    fn get_rows(&self, range: core::ops::Range<usize>) -> (r: Result<Vec<T>, StorageError>)
        ensures
            r matches Ok(v) ==> exists|s: Seq<T>|
                {
                    &&& v@.len() == spec_range_clamped(
                        s,
                        range.start as int,
                        range.end as int,
                    ).len()
                    &&& forall|i: int|
                        0 <= i < v@.len() ==> cloned::<T>(
                            spec_range_clamped(s, range.start as int, range.end as int)[i],
                            #[trigger] v@[i],
                        )
                },
    ;

    /// Update the row whose identity equals `key` to `row`. A key that
    /// matches no row is a successful no-op.
    fn set_row(&mut self, key: K, row: T) -> Result<(), StorageError>
        requires
            K::obeys_eq_spec(),
    ;

    /// Append `row` at the end of the table data.
    fn append_row(&mut self, row: T) -> Result<(), StorageError>;

    /// Remove the first row whose identity equals `key`. A key that matches
    /// no row is a successful no-op.
    fn remove_row(&mut self, key: K) -> Result<(), StorageError>
        requires
            K::obeys_eq_spec(),
    ;
}

#[verifier::external_type_specification]
#[verifier::external_body]
#[verifier::reject_recursive_types(T)]
pub struct ExRwLock<T: ?Sized>(std::sync::RwLock<T>);

/// Relies on `std::sync::RwLock::new`: wraps the value in a fresh, unlocked
/// lock.
#[verifier::external_body]
fn rw_lock_new<T>(rows: Vec<T>) -> std::sync::RwLock<Vec<T>> {
    std::sync::RwLock::new(rows)
}

/// A basic storage implementation that keeps the given data in memory. All
/// clones of one handle share the same row set: an update through any handle
/// is visible through every other.
#[derive(Clone)]
#[verifier::reject_recursive_types(T)]
pub struct MemoryStorage<T> {
    data: std::sync::Arc<std::sync::RwLock<Vec<T>>>,
}

impl<T> MemoryStorage<T> {
    /// Creates a new storage holding the given data as initial value. The
    /// row set lives behind a shared lock, so no contract can speak of its
    /// contents afterwards.
    pub fn new(data: Vec<T>) -> Self {
        MemoryStorage { data: std::sync::Arc::new(rw_lock_new(data)) }
    }

    /// Relies on `std::sync::RwLock::try_read`: acquires the shared lock
    /// only if no writer holds it, returning `Err` at once otherwise (a
    /// poisoned lock — a writer panicked while holding it — reads as
    /// permanently held). On success the result is a snapshot (a clone) of
    /// the shared row set at the moment the lock was held; being shared
    /// state, its contents cannot be promised here.
    #[verifier::external_body]
    fn try_read_rows(&self) -> (r: Result<Vec<T>, StorageError>) where T: Clone
        ensures
            r matches Err(e) ==> e == StorageError::LockContention,
    {
        match self.data.try_read() {
            Ok(guard) => Ok(guard.clone()),
            Err(_) => Err(StorageError::LockContention),
        }
    }

    /// Read the visible window of rows: snapshot the row set under the
    /// shared lock, then clamp the requested range against it. Fails only on
    /// lock contention; any rows returned are the clamped window of the
    /// snapshot.
    pub fn read_rows(&self, range: core::ops::Range<usize>) -> (r: Result<Vec<T>, StorageError>) where T: Clone
        ensures
            r matches Err(e) ==> e == StorageError::LockContention,
            r matches Ok(v) ==> exists|s: Seq<T>|
                {
                    &&& v@.len() == spec_range_clamped(
                        s,
                        range.start as int,
                        range.end as int,
                    ).len()
                    &&& forall|i: int|
                        0 <= i < v@.len() ==> cloned::<T>(
                            spec_range_clamped(s, range.start as int, range.end as int)[i],
                            #[trigger] v@[i],
                        )
                },
    {
        match self.try_read_rows() {
            Ok(snapshot) => {
                let window = get_vec_range_clamped(&snapshot, range);
                proof {
                    let s = snapshot@;
                    assert(window@.len() == spec_range_clamped(
                        s,
                        range.start as int,
                        range.end as int,
                    ).len());
                }
                Ok(window)
            },
            Err(e) => Err(e),
        }
    }

    /// Relies on `std::sync::RwLock::try_write`: acquires the exclusive lock
    /// only if it is free, returning `Err` at once otherwise (a poisoned
    /// lock reads as permanently held). On success the row set is updated by
    /// [`set_row_in`], whose contract carries the update's semantics and
    /// whose precondition this wrapper passes on.
    #[verifier::external_body]
    fn try_set_row<K: PartialEq + Clone>(&mut self, key: K, row: T) -> (r: Result<
        bool,
        StorageError,
    >) where T: TableDataEntry<K>
        requires
            K::obeys_eq_spec(),
        ensures
            r matches Err(e) ==> e == StorageError::LockContention,
    {
        match self.data.try_write() {
            Ok(mut guard) => Ok(set_row_in(&mut guard, &key, row)),
            Err(_) => Err(StorageError::LockContention),
        }
    }

    /// Relies on `std::sync::RwLock::try_write` (fail-fast, as above): on
    /// success the row set grows by [`append_row_in`], whose contract
    /// carries the append's semantics.
    #[verifier::external_body]
    fn try_append_row(&mut self, row: T) -> (r: Result<(), StorageError>)
        ensures
            r matches Err(e) ==> e == StorageError::LockContention,
    {
        match self.data.try_write() {
            Ok(mut guard) => {
                append_row_in(&mut guard, row);
                Ok(())
            },
            Err(_) => Err(StorageError::LockContention),
        }
    }

    /// Relies on `std::sync::RwLock::try_write` (fail-fast, as above): on
    /// success the row set is updated by [`remove_row_in`], whose contract
    /// carries the removal's semantics and whose precondition this wrapper
    /// passes on.
    #[verifier::external_body]
    fn try_remove_row<K: PartialEq + Clone>(&mut self, key: K) -> (r: Result<
        bool,
        StorageError,
    >) where T: TableDataEntry<K>
        requires
            K::obeys_eq_spec(),
        ensures
            r matches Err(e) ==> e == StorageError::LockContention,
    {
        match self.data.try_write() {
            Ok(mut guard) => Ok(remove_row_in(&mut guard, &key)),
            Err(_) => Err(StorageError::LockContention),
        }
    }

    /// Update the row whose identity equals `key`, reporting whether any row
    /// matched: a `false` result is the caller's cue to emit the
    /// key-not-found diagnostic to its observability sink. Fails only on
    /// lock contention; an absent key is a successful no-op.
    pub fn set_row_reporting<K: PartialEq + Clone>(&mut self, key: K, row: T) -> (r: Result<
        bool,
        StorageError,
    >) where T: TableDataEntry<K>
        requires
            K::obeys_eq_spec(),
        ensures
            r matches Err(e) ==> e == StorageError::LockContention,
    {
        self.try_set_row(key, row)
    }

    /// Remove the first row whose identity equals `key`, reporting whether
    /// any row matched, as [`Self::set_row_reporting`] does. Fails only on
    /// lock contention; an absent key is a successful no-op.
    pub fn remove_row_reporting<K: PartialEq + Clone>(&mut self, key: K) -> (r: Result<
        bool,
        StorageError,
    >) where T: TableDataEntry<K>
        requires
            K::obeys_eq_spec(),
        ensures
            r matches Err(e) ==> e == StorageError::LockContention,
    {
        self.try_remove_row(key)
    }
}

impl<T, K> TableDataStorage<T, K> for MemoryStorage<T> where
    T: core::fmt::Debug + PartialEq + Clone + TableDataEntry<K>,
    K: PartialEq + Clone,
 {
    fn get_rows(&self, range: core::ops::Range<usize>) -> (r: Result<Vec<T>, StorageError>)
        ensures
            r matches Err(e) ==> e == StorageError::LockContention,
    {
        self.read_rows(range)
    }

    fn set_row(&mut self, key: K, row: T) -> (r: Result<(), StorageError>)
        ensures
            r matches Err(e) ==> e == StorageError::LockContention,
    {
        match self.set_row_reporting(key, row) {
            Ok(_) => Ok(()),
            Err(e) => Err(e),
        }
    }

    fn append_row(&mut self, row: T) -> (r: Result<(), StorageError>)
        ensures
            r matches Err(e) ==> e == StorageError::LockContention,
    {
        self.try_append_row(row)
    }

    fn remove_row(&mut self, key: K) -> (r: Result<(), StorageError>)
        ensures
            r matches Err(e) ==> e == StorageError::LockContention,
    {
        match self.remove_row_reporting(key) {
            Ok(_) => Ok(()),
            Err(e) => Err(e),
        }
    }
}

} // verus!
