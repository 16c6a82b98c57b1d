//! A bounded store keyed by text that remembers how recently each key was
//! written. The newest key comes first; when the store is over its limit the
//! oldest keys leave. Reading never changes the order.

use crate::text::str_eq;
use vstd::prelude::*;

verus! {

/// The value written under `key`, if the store holds that key.
pub open spec fn lookup<V>(m: Seq<(Seq<char>, V)>, key: Seq<char>) -> Option<V>
    decreases m.len(),
{
    if m.len() == 0 {
        None
    } else if m[0].0 == key {
        Some(m[0].1)
    } else {
        lookup(m.drop_first(), key)
    }
}

/// The store's entries but those written under `key`, in their old order.
pub open spec fn without<V>(m: Seq<(Seq<char>, V)>, key: Seq<char>) -> Seq<(Seq<char>, V)>
    decreases m.len(),
{
    if m.len() == 0 {
        m
    } else if m[0].0 == key {
        without(m.drop_first(), key)
    } else {
        seq![m[0]] + without(m.drop_first(), key)
    }
}

/// The store after `value` is written under `key`: the new entry in front,
/// any older entry of that key gone, and no more than `limit` entries kept.
pub open spec fn stored<V>(m: Seq<(Seq<char>, V)>, key: Seq<char>, value: V, limit: nat) -> Seq<
    (Seq<char>, V),
> {
    let all = seq![(key, value)] + without(m, key);
    if all.len() > limit {
        all.take(limit as int)
    } else {
        all
    }
}

/// The store after each of `writes` is written, first to last.
pub open spec fn stored_all<V>(m: Seq<(Seq<char>, V)>, writes: Seq<(Seq<char>, V)>, limit: nat) -> Seq<
    (Seq<char>, V),
>
    decreases writes.len(),
{
    if writes.len() == 0 {
        m
    } else {
        stored(stored_all(m, writes.drop_last(), limit), writes.last().0, writes.last().1, limit)
    }
}

pub open spec fn has_key<V>(m: Seq<(Seq<char>, V)>, key: Seq<char>) -> bool {
    exists|i: int| 0 <= i < m.len() && (#[trigger] m[i]).0 == key
}

pub open spec fn distinct_keys<V>(m: Seq<(Seq<char>, V)>) -> bool {
    forall|i: int, j: int| 0 <= i < j < m.len() ==> (#[trigger] m[i]).0 != (#[trigger] m[j]).0
}

/// A key that the store does not hold has no value, and taking it out changes
/// nothing.
pub proof fn lemma_absent<V>(m: Seq<(Seq<char>, V)>, key: Seq<char>)
    requires
        !has_key(m, key),
    ensures
        lookup(m, key) is None,
        without(m, key) == m,
    decreases m.len(),
{
    if m.len() > 0 {
        assert(m[0].0 != key);
        assert forall|i: int| 0 <= i < m.drop_first().len() implies (#[trigger] m.drop_first()[i]).0
            != key by {
            assert(m[i + 1].0 != key);
        }
        lemma_absent(m.drop_first(), key);
        assert(seq![m[0]] + m.drop_first() =~= m);
    }
}

/// The first entry under a key is the one that a lookup finds.
pub proof fn lemma_lookup_first<V>(m: Seq<(Seq<char>, V)>, key: Seq<char>, p: int)
    requires
        0 <= p < m.len(),
        m[p].0 == key,
        forall|j: int| 0 <= j < p ==> (#[trigger] m[j]).0 != key,
    ensures
        lookup(m, key) == Some(m[p].1),
    decreases m.len(),
{
    if p > 0 {
        assert(m[0].0 != key);
        assert forall|j: int| 0 <= j < p - 1 implies (#[trigger] m.drop_first()[j]).0 != key by {
            assert(m[j + 1].0 != key);
        }
        lemma_lookup_first(m.drop_first(), key, p - 1);
    }
}

/// Where no key occurs twice, taking a key out removes the one entry that
/// holds it.
pub proof fn lemma_without_one<V>(m: Seq<(Seq<char>, V)>, key: Seq<char>, p: int)
    requires
        distinct_keys(m),
        0 <= p < m.len(),
        m[p].0 == key,
    ensures
        without(m, key) == m.remove(p),
    decreases m.len(),
{
    let rest = m.drop_first();
    assert forall|i: int, j: int| 0 <= i < j < rest.len() implies (#[trigger] rest[i]).0 != (
    #[trigger] rest[j]).0 by {
        assert(m[i + 1].0 != m[j + 1].0);
    }
    if p == 0 {
        assert forall|i: int| 0 <= i < rest.len() implies (#[trigger] rest[i]).0 != key by {
            assert(m[0].0 != m[i + 1].0);
        }
        lemma_absent(rest, key);
        assert(m.remove(0) =~= rest);
    } else {
        assert(m[0].0 != m[p].0);
        lemma_without_one(rest, key, p - 1);
        assert(seq![m[0]] + rest.remove(p - 1) =~= m.remove(p));
    }
}

/// Writing keeps the keys distinct and the store within its limit, and the
/// key just written is found again unless the limit is zero.
pub proof fn lemma_stored<V>(m: Seq<(Seq<char>, V)>, key: Seq<char>, value: V, limit: nat)
    requires
        distinct_keys(m),
    ensures
        distinct_keys(stored(m, key, value, limit)),
        stored(m, key, value, limit).len() <= limit,
        stored(m, key, value, limit).len() <= m.len() + 1,
        limit > 0 ==> lookup(stored(m, key, value, limit), key) == Some(value),
        limit == 0 ==> stored(m, key, value, limit).len() == 0,
{
    lemma_without(m, key);
    let rest = without(m, key);
    let all = seq![(key, value)] + rest;
    assert forall|i: int, j: int| 0 <= i < j < all.len() implies (#[trigger] all[i]).0 != (
    #[trigger] all[j]).0 by {
        if i == 0 {
            assert(rest[j - 1].0 != key);
        } else {
            assert(rest[i - 1].0 != rest[j - 1].0);
        }
    }
    let out = stored(m, key, value, limit);
    assert forall|i: int, j: int| 0 <= i < j < out.len() implies (#[trigger] out[i]).0 != (
    #[trigger] out[j]).0 by {
        assert(all[i].0 != all[j].0);
    }
    if limit > 0 {
        assert(out[0] == (key, value));
    }
}

/// What is left once a key is taken out: a part of the store, in its order,
/// that does not hold the key.
pub proof fn lemma_without<V>(m: Seq<(Seq<char>, V)>, key: Seq<char>)
    requires
        distinct_keys(m),
    ensures
        distinct_keys(without(m, key)),
        !has_key(without(m, key), key),
        without(m, key).len() <= m.len(),
        forall|k: Seq<char>| k != key ==> lookup(without(m, key), k) == lookup(m, k),
{
    if has_key(m, key) {
        let p = choose|i: int| 0 <= i < m.len() && (#[trigger] m[i]).0 == key;
        lemma_without_one(m, key, p);
        let r = m.remove(p);
        assert forall|i: int, j: int| 0 <= i < j < r.len() implies (#[trigger] r[i]).0 != (
        #[trigger] r[j]).0 by {
            let a = if i < p {
                i
            } else {
                i + 1
            };
            let b = if j < p {
                j
            } else {
                j + 1
            };
            assert(m[a].0 != m[b].0);
        }
        assert forall|i: int| 0 <= i < r.len() implies (#[trigger] r[i]).0 != key by {
            let a = if i < p {
                i
            } else {
                i + 1
            };
            assert(m[a].0 != m[p].0);
        }
        assert forall|k: Seq<char>| k != key implies lookup(r, k) == lookup(m, k) by {
            lemma_lookup_skips(m, p, k);
        }
    } else {
        lemma_absent(m, key);
    }
}

/// Removing an entry does not change what is found under other keys.
proof fn lemma_lookup_skips<V>(m: Seq<(Seq<char>, V)>, p: int, k: Seq<char>)
    requires
        0 <= p < m.len(),
        m[p].0 != k,
    ensures
        lookup(m.remove(p), k) == lookup(m, k),
    decreases m.len(),
{
    if p == 0 {
        assert(m.remove(0) =~= m.drop_first());
    } else {
        assert(m.remove(p)[0] == m[0]);
        assert(m.remove(p).drop_first() =~= m.drop_first().remove(p - 1));
        if m[0].0 != k {
            lemma_lookup_skips(m.drop_first(), p - 1, k);
        }
    }
}

/// Filling an empty store with entries of distinct keys keeps the newest of
/// them, newest first, as many as the limit allows: of `limit + k` writes
/// exactly `limit` entries stay, the `k` oldest keys are gone, and every
/// later key is found with its value.
pub proof fn lemma_fill_keeps_newest<V>(writes: Seq<(Seq<char>, V)>, limit: nat)
    requires
        distinct_keys(writes),
    ensures
        stored_all(Seq::<(Seq<char>, V)>::empty(), writes, limit) == if writes.len() > limit {
            writes.reverse().take(limit as int)
        } else {
            writes.reverse()
        },
        writes.len() >= limit ==> stored_all(
            Seq::<(Seq<char>, V)>::empty(),
            writes,
            limit,
        ).len() == limit,
        forall|i: int|
            0 <= i < writes.len() - limit ==> !has_key(
                stored_all(Seq::<(Seq<char>, V)>::empty(), writes, limit),
                (#[trigger] writes[i]).0,
            ),
        forall|i: int|
            0 <= i < writes.len() && writes.len() - limit <= i ==> lookup(
                stored_all(Seq::<(Seq<char>, V)>::empty(), writes, limit),
                (#[trigger] writes[i]).0,
            ) == Some(writes[i].1),
    decreases writes.len(),
{
    let empty = Seq::<(Seq<char>, V)>::empty();
    let out = stored_all(empty, writes, limit);
    let n = writes.len() as int;
    if n == 0 {
        assert(writes.reverse() =~= empty);
    } else {
        let before = writes.drop_last();
        let last = writes.last();
        assert forall|i: int, j: int| 0 <= i < j < before.len() implies (#[trigger] before[i]).0 != (
        #[trigger] before[j]).0 by {
            assert(writes[i].0 != writes[j].0);
        }
        lemma_fill_keeps_newest(before, limit);
        let kept = stored_all(empty, before, limit);
        assert forall|i: int| 0 <= i < kept.len() implies (#[trigger] kept[i]).0 != last.0 by {
            assert(kept[i] == before.reverse()[i]);
            assert(before.reverse()[i] == writes[n - 2 - i]);
            assert(writes[n - 2 - i].0 != writes[n - 1].0);
        }
        lemma_absent(kept, last.0);
        let all = seq![(last.0, last.1)] + kept;
        assert(seq![(last.0, last.1)] + before.reverse() =~= writes.reverse());
        if n > limit {
            assert(all.take(limit as int) =~= writes.reverse().take(limit as int));
        } else {
            assert(all =~= writes.reverse());
        }
        assert(out == if n > limit {
            writes.reverse().take(limit as int)
        } else {
            writes.reverse()
        });
    }
    assert forall|i: int| 0 <= i < n && n - limit <= i implies lookup(
        out,
        (#[trigger] writes[i]).0,
    ) == Some(writes[i].1) by {
        let p = n - 1 - i;
        assert(out[p] == writes.reverse()[p]);
        assert forall|j: int| 0 <= j < p implies (#[trigger] out[j]).0 != writes[i].0 by {
            assert(out[j] == writes.reverse()[j]);
            assert(writes.reverse()[j] == writes[n - 1 - j]);
            assert(writes[i].0 != writes[n - 1 - j].0);
        }
        lemma_lookup_first(out, writes[i].0, p);
    }
    assert forall|i: int| 0 <= i < n - limit implies !has_key(out, (#[trigger] writes[i]).0) by {
        assert forall|j: int| 0 <= j < out.len() implies (#[trigger] out[j]).0 != writes[i].0 by {
            assert(out[j] == writes.reverse()[j]);
            assert(writes.reverse()[j] == writes[n - 1 - j]);
            assert(writes[i].0 != writes[n - 1 - j].0);
        }
    }
}

/// A store of values under text keys, bounded in size, newest write first.
pub struct Recency<V> {
    slots: Vec<(String, V)>,
    limit: usize,
}

impl<V> View for Recency<V> {
    type V = Seq<(Seq<char>, V)>;

    /// The entries, newest first, each key as its text.
    closed spec fn view(&self) -> Seq<(Seq<char>, V)> {
        Seq::new(self.slots@.len(), |i: int| (self.slots@[i].0@, self.slots@[i].1))
    }
}

impl<V> Recency<V> {
    /// The greatest number of entries that the store keeps.
    pub closed spec fn limit(&self) -> nat {
        self.limit as nat
    }

    #[verifier::type_invariant]
    spec fn well_formed(&self) -> bool {
        &&& distinct_keys(self@)
        &&& self.slots@.len() <= self.limit
    }

    /// An empty store that will keep at most `limit` entries.
    pub fn new(limit: usize) -> (r: Self)
        ensures
            r@ == Seq::<(Seq<char>, V)>::empty(),
            r.limit() == limit,
    {
        let r = Recency { slots: Vec::new(), limit };
        assert(r@ =~= Seq::<(Seq<char>, V)>::empty());
        r
    }

    /// The number of entries, which never passes the limit; no key is held
    /// twice.
    pub fn len(&self) -> (n: usize)
        ensures
            n == self@.len(),
            n <= self.limit(),
            distinct_keys(self@),
    {
        proof {
            use_type_invariant(self);
        }
        self.slots.len()
    }

    pub fn is_empty(&self) -> (r: bool)
        ensures
            r == (self@.len() == 0),
    {
        self.slots.len() == 0
    }

    /// The greatest number of entries that the store keeps.
    pub fn capacity(&self) -> (n: usize)
        ensures
            n == self.limit(),
    {
        self.limit
    }

    /// The key of the entry at `index`, counted from the newest, if there
    /// are that many entries.
    pub fn key_at(&self, index: usize) -> (key: Option<&String>)
        ensures
            match key {
                Some(k) => index < self@.len() && k@ == self@[index as int].0,
                None => index >= self@.len(),
            },
    {
        if index < self.slots.len() {
            Some(&self.slots[index].0)
        } else {
            None
        }
    }

    fn position(&self, key: &str) -> (r: Option<usize>)
        ensures
            match r {
                Some(p) => p < self@.len() && self@[p as int].0 == key@ && forall|j: int|
                    0 <= j < p ==> (#[trigger] self@[j]).0 != key@,
                None => !has_key(self@, key@),
            },
    {
        let mut i: usize = 0;
        while i < self.slots.len()
            invariant
                i <= self.slots@.len(),
                self@.len() == self.slots@.len(),
                forall|j: int| 0 <= j < i ==> (#[trigger] self@[j]).0 != key@,
            decreases self.slots.len() - i,
        {
            if str_eq(self.slots[i].0.as_str(), key) {
                return Some(i);
            }
            i += 1;
        }
        None
    }

    /// The value under `key`, if the store holds it.
    pub fn get(&self, key: &str) -> (r: Option<&V>)
        ensures
            r == match lookup(self@, key@) {
                Some(v) => Some(&v),
                None => None,
            },
            r is Some == has_key(self@, key@),
    {
        match self.position(key) {
            Some(p) => {
                proof {
                    lemma_lookup_first(self@, key@, p as int);
                }
                Some(&self.slots[p].1)
            },
            None => {
                proof {
                    lemma_absent(self@, key@);
                }
                None
            },
        }
    }

    /// Whether the store holds `key`.
    pub fn contains_key(&self, key: &str) -> (r: bool)
        ensures
            r == has_key(self@, key@),
            r == lookup(self@, key@).is_some(),
    {
        match self.position(key) {
            Some(p) => {
                proof {
                    lemma_lookup_first(self@, key@, p as int);
                }
                true
            },
            None => {
                proof {
                    lemma_absent(self@, key@);
                }
                false
            },
        }
    }

    /// Writes `value` under `key` and makes that key the newest. An older
    /// entry of the key is replaced, and the oldest entries leave while the
    /// store is over its limit.
    pub fn put(&mut self, key: String, value: V)
        ensures
            final(self)@ == stored(old(self)@, key@, value, old(self).limit()),
            final(self).limit() == old(self).limit(),
    {
        proof {
            use_type_invariant(&*self);
        }
        let ghost before = self@;
        let found = self.position(key.as_str());
        let mut slots: Vec<(String, V)> = Vec::new();
        core::mem::swap(&mut self.slots, &mut slots);
        assert(before =~= Seq::new(slots@.len(), |i: int| (slots@[i].0@, slots@[i].1)));
        if let Some(p) = found {
            slots.remove(p);
            proof {
                lemma_without_one(before, key@, p as int);
            }
        } else {
            proof {
                lemma_absent(before, key@);
            }
        }
        assert(without(before, key@) =~= Seq::new(slots@.len(), |i: int| (slots@[i].0@, slots@[i].1)));
        let ghost key_text = key@;
        slots.insert(0, (key, value));
        let ghost all = seq![(key_text, value)] + without(before, key_text);
        assert(all =~= Seq::new(slots@.len(), |i: int| (slots@[i].0@, slots@[i].1)));
        if slots.len() > self.limit {
            slots.truncate(self.limit);
        }
        proof {
            lemma_stored(before, key_text, value, self.limit as nat);
            assert(stored(before, key_text, value, self.limit as nat) =~= Seq::new(
                slots@.len(),
                |i: int| (slots@[i].0@, slots@[i].1),
            ));
        }
        self.slots = slots;
    }
}

} // verus!
