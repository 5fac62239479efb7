//! A verified key-value store keyed by account, standing in for the
//! environment's persisted per-contract storage maps.
//!
//! The store keeps a journal of writes: an insert or a removal appends an
//! entry, and a lookup returns the most recent binding for a key.  This
//! keeps every operation's contract a one-line fact about `spec_get`.

use vstd::prelude::*;

use crate::identity::AccountId;

verus! {

/// A persisted map from accounts to values of type `T`.
pub struct Mapping<T> {
    entries: Vec<(AccountId, Option<T>)>,
}

/// The most recent binding for `key` in the journal `s`: `Some(Some(v))`
/// after an insert of `v`, `Some(None)` after a removal, `None` if the key
/// was never written.
spec fn last_write<T>(s: Seq<(AccountId, Option<T>)>, key: AccountId) -> Option<Option<T>>
    decreases s.len(),
{
    if s.len() == 0 {
        None
    } else if s.last().0 == key {
        Some(s.last().1)
    } else {
        last_write(s.drop_last(), key)
    }
}

impl<T> Mapping<T> {
    /// The value currently bound to `key`, if any.
    pub closed spec fn spec_get(self, key: AccountId) -> Option<T> {
        match last_write(self.entries@, key) {
            Some(binding) => binding,
            None => None,
        }
    }

    /// An empty map.
    pub fn new() -> (r: Self)
        ensures
            forall|a: AccountId| #[trigger] r.spec_get(a) is None,
    {
        Mapping { entries: Vec::new() }
    }

    /// Bind `key` to `value`, leaving every other key unchanged.
    pub fn insert(&mut self, key: AccountId, value: T)
        ensures
            final(self).spec_get(key) == Some(value),
            forall|a: AccountId| a != key ==> #[trigger] final(self).spec_get(a) == old(
                self,
            ).spec_get(a),
    {
        self.entries.push((key, Some(value)));
        proof {
            assert(self.entries@.drop_last() =~= old(self).entries@);
        }
    }

    /// Remove any binding for `key`, leaving every other key unchanged.
    pub fn remove(&mut self, key: AccountId)
        ensures
            final(self).spec_get(key) is None,
            forall|a: AccountId| a != key ==> #[trigger] final(self).spec_get(a) == old(
                self,
            ).spec_get(a),
    {
        self.entries.push((key, None));
        proof {
            assert(self.entries@.drop_last() =~= old(self).entries@);
        }
    }
}

impl<T: Copy> Mapping<T> {
    /// Look up the value currently bound to `key`.
    pub fn get(&self, key: AccountId) -> (r: Option<T>)
        ensures
            r == self.spec_get(key),
    {
        let mut i: usize = self.entries.len();
        proof {
            assert(self.entries@.take(i as int) =~= self.entries@);
        }
        while i > 0
            invariant
                i <= self.entries.len(),
                last_write(self.entries@, key) == last_write(self.entries@.take(i as int), key),
            decreases i,
        {
            i = i - 1;
            let entry = self.entries[i];
            if entry.0 == key {
                proof {
                    assert(self.entries@.take(i + 1).last() == self.entries@[i as int]);
                }
                return entry.1;
            }
            proof {
                assert(self.entries@.take(i + 1).drop_last() =~= self.entries@.take(i as int));
            }
        }
        None
    }
}

} // verus!
