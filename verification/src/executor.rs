//! The execution serializer: at most one mutating operation per resource
//! key is in flight, and operations on different keys do not wait for each
//! other.
//!
//! This module keeps the table of locks and says who may run; waiting and
//! running are left to the caller.

use vstd::prelude::*;
use crate::retry::{Retry, DEFAULT_MAX_ATTEMPTS, DEFAULT_RETRY_BASE_DELAY};
use crate::text::{copy_str, same_text};

verus! {

/// The table of locks as plain values: the keys that have a lock, and
/// those whose lock is held.
pub struct Locks {
    pub known: Set<Seq<char>>,
    pub held: Set<Seq<char>>,
}

impl Locks {
    /// Whether an operation on `key` may start.
    pub open spec fn free(self, key: Seq<char>) -> bool {
        !self.held.contains(key)
    }

    /// The table after an operation on `key` asked to start: the key has a
    /// lock, and the lock is held, by that operation or by an earlier one.
    pub open spec fn acquire(self, key: Seq<char>) -> Locks {
        Locks { known: self.known.insert(key), held: self.held.insert(key) }
    }

    /// The table after the operation on `key` ended. The lock stays in the
    /// table.
    pub open spec fn release(self, key: Seq<char>) -> Locks {
        Locks { known: self.known, held: self.held.remove(key) }
    }
}

/// The serializer: the keys that have a lock, those whose lock is held, and
/// the retry policy under which each operation runs.
pub struct ManagerExecutor {
    known: Vec<String>,
    held: Vec<String>,
    max_attempts: u32,
    base_delay: u128,
}

/// The texts that a list of keys holds.
pub open spec fn keys_of(list: Seq<String>) -> Set<Seq<char>> {
    Set::new(|k: Seq<char>| exists|i: int| 0 <= i < list.len() && #[trigger] list[i]@ == k)
}

fn has_key(list: &Vec<String>, key: &str) -> (r: bool)
    ensures
        r == keys_of(list@).contains(key@),
{
    let mut i: usize = 0;
    while i < list.len()
        invariant
            i <= list.len(),
            forall|k: int| 0 <= k < i ==> list@[k]@ != key@,
        decreases list.len() - i,
    {
        if same_text(list[i].as_str(), key) {
            return true;
        }
        i = i + 1;
    }
    false
}

fn add_key(list: &mut Vec<String>, key: &str)
    ensures
        keys_of(final(list)@) == keys_of(old(list)@).insert(key@),
{
    let ghost before = list@;
    if !has_key(list, key) {
        list.push(copy_str(key));
        assert forall|k: Seq<char>| keys_of(list@).contains(k) == keys_of(before).insert(
            key@,
        ).contains(k) by {
            if keys_of(list@).contains(k) {
                let i = choose|i: int| 0 <= i < list@.len() && #[trigger] list@[i]@ == k;
                if i < before.len() {
                    assert(before[i]@ == k);
                }
            }
            if keys_of(before).contains(k) {
                let i = choose|i: int| 0 <= i < before.len() && #[trigger] before[i]@ == k;
                assert(list@[i]@ == k);
            }
            if k == key@ {
                assert(list@[before.len() as int]@ == k);
            }
        }
    }
    assert(keys_of(list@) =~= keys_of(before).insert(key@));
}

fn drop_key(list: &mut Vec<String>, key: &str)
    ensures
        keys_of(final(list)@) == keys_of(old(list)@).remove(key@),
{
    let ghost before = list@;
    let mut kept: Vec<String> = Vec::new();
    let mut i: usize = 0;
    while i < list.len()
        invariant
            i <= list.len(),
            list@ == before,
            forall|k: int| 0 <= k < kept@.len() ==> (#[trigger] kept@[k])@ != key@,
            forall|k: int|
                0 <= k < kept@.len() ==> exists|j: int|
                    0 <= j < i && before[j]@ == (#[trigger] kept@[k])@,
            forall|j: int|
                0 <= j < i && (#[trigger] before[j])@ != key@ ==> exists|k: int|
                    0 <= k < kept@.len() && kept@[k]@ == before[j]@,
        decreases list.len() - i,
    {
        if !same_text(list[i].as_str(), key) {
            let ghost sofar = kept@;
            let entry = list[i].clone();
            kept.push(entry);
            assert forall|k: int| 0 <= k < kept@.len() implies exists|j: int|
                0 <= j < i + 1 && before[j]@ == (#[trigger] kept@[k])@ by {
                if k < sofar.len() {
                    let j = choose|j: int| 0 <= j < i && before[j]@ == sofar[k]@;
                    assert(before[j]@ == kept@[k]@);
                } else {
                    assert(before[i as int]@ == kept@[k]@);
                }
            }
            assert forall|j: int| 0 <= j < i + 1 && (#[trigger] before[j])@ != key@ implies exists|
                k: int,
            |
                0 <= k < kept@.len() && kept@[k]@ == before[j]@ by {
                if j < i {
                    let k = choose|k: int| 0 <= k < sofar.len() && sofar[k]@ == before[j]@;
                    assert(kept@[k]@ == before[j]@);
                } else {
                    assert(kept@[sofar.len() as int]@ == before[j]@);
                }
            }
        }
        i = i + 1;
    }
    *list = kept;
    assert forall|k: Seq<char>| keys_of(list@).contains(k) == keys_of(before).remove(
        key@,
    ).contains(k) by {
        if keys_of(list@).contains(k) {
            let a = choose|a: int| 0 <= a < list@.len() && #[trigger] list@[a]@ == k;
            let j = choose|j: int| 0 <= j < before.len() && before[j]@ == list@[a]@;
            assert(before[j]@ == k);
        }
        if keys_of(before).remove(key@).contains(k) {
            let j = choose|j: int| 0 <= j < before.len() && #[trigger] before[j]@ == k;
            let a = choose|a: int| 0 <= a < list@.len() && list@[a]@ == before[j]@;
            assert(list@[a]@ == k);
        }
    }
    assert(keys_of(list@) =~= keys_of(before).remove(key@));
}

impl ManagerExecutor {
    /// The bound on the attempts of each operation.
    pub closed spec fn attempts(&self) -> nat {
        self.max_attempts as nat
    }

    /// The delay before the second attempt of each operation.
    pub closed spec fn delay(&self) -> nat {
        self.base_delay as nat
    }

    /// The table of locks.
    pub closed spec fn view(&self) -> Locks {
        Locks { known: keys_of(self.known@), held: keys_of(self.held@) }
    }

    /// A serializer with no locks yet.
    pub fn new(max_attempts: u32, base_delay: u128) -> (e: ManagerExecutor)
        ensures
            e@.known == Set::<Seq<char>>::empty(),
            e@.held == Set::<Seq<char>>::empty(),
            e.attempts() == max_attempts,
            e.delay() == base_delay,
    {
        let e = ManagerExecutor {
            known: Vec::new(),
            held: Vec::new(),
            max_attempts,
            base_delay,
        };
        assert(e@.known =~= Set::<Seq<char>>::empty());
        assert(e@.held =~= Set::<Seq<char>>::empty());
        e
    }

    /// Whether an operation on `key` is in flight.
    pub fn is_held(&self, key: &str) -> (r: bool)
        ensures
            r == self@.held.contains(key@),
    {
        has_key(&self.held, key)
    }

    /// Asks to start an operation on `key`. The lock of the key is made if
    /// there is none. The answer is `true` where no operation on the key is
    /// in flight: the caller then holds the lock until it calls `release`.
    pub fn try_acquire(&mut self, key: &str) -> (granted: bool)
        ensures
            granted == old(self)@.free(key@),
            final(self)@ == old(self)@.acquire(key@),
            final(self).attempts() == old(self).attempts(),
            final(self).delay() == old(self).delay(),
    {
        let granted = !has_key(&self.held, key);
        add_key(&mut self.known, key);
        add_key(&mut self.held, key);
        granted
    }

    /// Ends the operation on `key`: the next one may start.
    pub fn release(&mut self, key: &str)
        ensures
            final(self)@ == old(self)@.release(key@),
            final(self).attempts() == old(self).attempts(),
            final(self).delay() == old(self).delay(),
    {
        drop_key(&mut self.held, key);
    }

    /// The retry run under which an operation of this serializer starts.
    pub fn retry(&self) -> (r: Retry)
        ensures
            r.bound() == self.attempts(),
            r.base() == self.delay(),
            r.current() == 1,
    {
        Retry::start(self.max_attempts, self.base_delay)
    }
}

impl Default for ManagerExecutor {
    fn default() -> (e: ManagerExecutor)
        ensures
            e@.known == Set::<Seq<char>>::empty(),
            e@.held == Set::<Seq<char>>::empty(),
            e.attempts() == DEFAULT_MAX_ATTEMPTS,
            e.delay() == DEFAULT_RETRY_BASE_DELAY,
    {
        ManagerExecutor::new(DEFAULT_MAX_ATTEMPTS, DEFAULT_RETRY_BASE_DELAY)
    }
}

/// While an operation on a key is in flight, no second one on that key may
/// start; once it has ended, the next one may.
pub proof fn law_same_key_serialized(locks: Locks, key: Seq<char>)
    ensures
        !locks.acquire(key).free(key),
        locks.acquire(key).release(key).free(key),
{
}

/// Whether an operation may start does not depend on what happens to the
/// locks of other keys.
pub proof fn law_other_keys_independent(locks: Locks, key: Seq<char>, other: Seq<char>)
    requires
        key != other,
    ensures
        locks.acquire(key).free(other) == locks.free(other),
        locks.release(key).free(other) == locks.free(other),
{
}

/// A lock, once made, stays in the table.
pub proof fn law_locks_stay(locks: Locks, key: Seq<char>, other: Seq<char>)
    requires
        locks.known.contains(other),
    ensures
        locks.acquire(key).known.contains(other),
        locks.release(key).known.contains(other),
{
}

} // verus!
