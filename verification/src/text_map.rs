//! A map from strings to values that keeps its keys in lexicographic order
//! (by character code), as a sorted vector.

use vstd::prelude::*;

verus! {

/// `a` comes before `b` in lexicographic order by character code: at the
/// first position where they differ `a` has the smaller character, or `a` is
/// a proper prefix of `b`.
pub open spec fn lex_lt(a: Seq<char>, b: Seq<char>) -> bool
    decreases a.len(),
{
    if a.len() == 0 {
        b.len() > 0
    } else if b.len() == 0 {
        false
    } else if a[0] != b[0] {
        (a[0] as int) < (b[0] as int)
    } else {
        lex_lt(a.drop_first(), b.drop_first())
    }
}

/// No string comes before itself.
pub proof fn lemma_lex_irreflexive(a: Seq<char>)
    ensures
        !lex_lt(a, a),
    decreases a.len(),
{
    if a.len() > 0 {
        lemma_lex_irreflexive(a.drop_first());
    }
}

/// Lexicographic order is transitive.
pub proof fn lemma_lex_transitive(a: Seq<char>, b: Seq<char>, c: Seq<char>)
    requires
        lex_lt(a, b),
        lex_lt(b, c),
    ensures
        lex_lt(a, c),
    decreases a.len(),
{
    if a.len() > 0 && b.len() > 0 && c.len() > 0 {
        if a[0] == b[0] && b[0] == c[0] {
            lemma_lex_transitive(a.drop_first(), b.drop_first(), c.drop_first());
        }
    }
}

/// Of two different strings, one comes before the other.
pub proof fn lemma_lex_total(a: Seq<char>, b: Seq<char>)
    requires
        a != b,
    ensures
        lex_lt(a, b) || lex_lt(b, a),
    decreases a.len(),
{
    if a.len() == 0 {
        if b.len() == 0 {
            assert(a =~= b);
        }
    } else if b.len() > 0 && a[0] == b[0] {
        if a.drop_first() == b.drop_first() {
            assert(a =~= seq![a[0]] + a.drop_first());
            assert(b =~= seq![b[0]] + b.drop_first());
        }
        lemma_lex_total(a.drop_first(), b.drop_first());
    } else if b.len() > 0 {
        assert((a[0] as int) != (b[0] as int));
    }
}

proof fn lemma_lex_skip(a: Seq<char>, b: Seq<char>, i: int)
    requires
        0 <= i <= a.len(),
        i <= b.len(),
        a.take(i) == b.take(i),
    ensures
        lex_lt(a, b) == lex_lt(a.skip(i), b.skip(i)),
    decreases i,
{
    if i > 0 {
        assert(a[0] == a.take(i)[0]);
        assert(b[0] == b.take(i)[0]);
        assert(a.drop_first().take(i - 1) =~= a.take(i).drop_first());
        assert(b.drop_first().take(i - 1) =~= b.take(i).drop_first());
        lemma_lex_skip(a.drop_first(), b.drop_first(), i - 1);
        assert(a.drop_first().skip(i - 1) =~= a.skip(i));
        assert(b.drop_first().skip(i - 1) =~= b.skip(i));
    } else {
        assert(a.skip(0) =~= a);
        assert(b.skip(0) =~= b);
    }
}

/// Whether `a` comes before `b` in lexicographic order.
pub fn lex_less(a: &str, b: &str) -> (r: bool)
    ensures
        r == lex_lt(a@, b@),
{
    let na = a.unicode_len();
    let nb = b.unicode_len();
    let mut i: usize = 0;
    while i < na && i < nb
        invariant
            na == a@.len(),
            nb == b@.len(),
            i <= na,
            i <= nb,
            a@.take(i as int) == b@.take(i as int),
        decreases na - i,
    {
        let ca = a.get_char(i);
        let cb = b.get_char(i);
        if ca != cb {
            proof {
                lemma_lex_skip(a@, b@, i as int);
                assert(a@.skip(i as int)[0] == ca);
                assert(b@.skip(i as int)[0] == cb);
            }
            return (ca as u32) < (cb as u32);
        }
        proof {
            assert(a@.take(i + 1) =~= a@.take(i as int).push(ca));
            assert(b@.take(i + 1) =~= b@.take(i as int).push(cb));
        }
        i = i + 1;
    }
    proof {
        lemma_lex_skip(a@, b@, i as int);
    }
    i == na && i < nb
}

/// Keys in strictly increasing lexicographic order.
pub open spec fn strictly_sorted(keys: Seq<Seq<char>>) -> bool {
    forall|i: int, j: int| 0 <= i < j < keys.len() ==> lex_lt(keys[i], keys[j])
}

/// The position of `k` among `keys`.
pub open spec fn key_index(keys: Seq<Seq<char>>, k: Seq<char>) -> int {
    choose|i: int| 0 <= i < keys.len() && keys[i] == k
}

/// The map from each key to the value at its position.
pub open spec fn pairs_map<V>(keys: Seq<Seq<char>>, values: Seq<V>) -> Map<Seq<char>, V> {
    Map::new(|k: Seq<char>| keys.contains(k), |k: Seq<char>| values[key_index(keys, k)])
}

proof fn lemma_sorted_index(keys: Seq<Seq<char>>, i: int)
    requires
        strictly_sorted(keys),
        0 <= i < keys.len(),
    ensures
        key_index(keys, keys[i]) == i,
{
    let j = key_index(keys, keys[i]);
    assert(0 <= j < keys.len() && keys[j] == keys[i]);
    if j < i {
        assert(lex_lt(keys[j], keys[i]));
        lemma_lex_irreflexive(keys[i]);
    } else if i < j {
        assert(lex_lt(keys[i], keys[j]));
        lemma_lex_irreflexive(keys[i]);
    }
}

/// A map from strings to values, its entries sorted by key.
pub struct TextMap<V> {
    entries: Vec<(String, V)>,
}

impl<V> TextMap<V> {
    /// The keys, in increasing order.
    pub closed spec fn keys(&self) -> Seq<Seq<char>> {
        Seq::new(self.entries@.len(), |i: int| self.entries@[i].0@)
    }

    /// The values, in the order of their keys.
    pub closed spec fn values(&self) -> Seq<V> {
        Seq::new(self.entries@.len(), |i: int| self.entries@[i].1)
    }

    #[verifier::type_invariant]
    closed spec fn sorted(&self) -> bool {
        strictly_sorted(self.keys())
    }

    /// The map from keys to values.
    pub open spec fn view(&self) -> Map<Seq<char>, V> {
        pairs_map(self.keys(), self.values())
    }

    /// An empty map.
    pub fn new() -> (r: Self)
        ensures
            r.keys() == Seq::<Seq<char>>::empty(),
            r@ == Map::<Seq<char>, V>::empty(),
    {
        let r = TextMap { entries: Vec::new() };
        assert(r.keys() =~= Seq::<Seq<char>>::empty());
        assert(r@ =~= Map::<Seq<char>, V>::empty());
        r
    }

    /// The number of entries; the keys are in strictly increasing order.
    pub fn len(&self) -> (n: usize)
        ensures
            n == self.keys().len(),
            n == self.values().len(),
            strictly_sorted(self.keys()),
    {
        proof {
            use_type_invariant(self);
        }
        self.entries.len()
    }

    /// The key and value at position `i`.
    pub fn entry(&self, i: usize) -> (r: (&String, &V))
        requires
            i < self.keys().len(),
        ensures
            r.0@ == self.keys()[i as int],
            *r.1 == self.values()[i as int],
    {
        (&self.entries[i].0, &self.entries[i].1)
    }

    /// The position of `key`, or where it would go: the first position whose
    /// key does not come before `key`.
    fn search(&self, key: &str) -> (r: usize)
        ensures
            r <= self.keys().len(),
            forall|i: int| 0 <= i < r ==> lex_lt(#[trigger] self.keys()[i], key@),
            r < self.keys().len() ==> !lex_lt(self.keys()[r as int], key@),
    {
        let mut i: usize = 0;
        while i < self.entries.len() && lex_less(self.entries[i].0.as_str(), key)
            invariant
                i <= self.entries@.len(),
                forall|j: int| 0 <= j < i ==> lex_lt(#[trigger] self.keys()[j], key@),
            decreases self.entries.len() - i,
        {
            i = i + 1;
        }
        i
    }

    /// The value stored under `key`, if any.
    pub fn get(&self, key: &str) -> (r: Option<&V>)
        ensures
            match r {
                Some(v) => self@.dom().contains(key@) && *v == self@[key@],
                None => !self@.dom().contains(key@),
            },
    {
        proof {
            use_type_invariant(self);
        }
        let p = self.search(key);
        if p < self.entries.len() && crate::text::str_eq(self.entries[p].0.as_str(), key) {
            proof {
                lemma_sorted_index(self.keys(), p as int);
                assert(self.keys()[p as int] == key@);
            }
            Some(&self.entries[p].1)
        } else {
            proof {
                if self.keys().contains(key@) {
                    let j = choose|j: int| 0 <= j < self.keys().len() && self.keys()[j] == key@;
                    lemma_lex_irreflexive(key@);
                    if j > p {
                        assert(lex_lt(self.keys()[p as int], self.keys()[j]));
                        if self.keys()[p as int] != key@ {
                            lemma_lex_total(self.keys()[p as int], key@);
                        }
                    }
                }
            }
            None
        }
    }
}

/// The keys of a list of entries.
pub open spec fn entry_keys<V>(e: Seq<(String, V)>) -> Seq<Seq<char>> {
    Seq::new(e.len(), |i: int| e[i].0@)
}

/// The values of a list of entries.
pub open spec fn entry_values<V>(e: Seq<(String, V)>) -> Seq<V> {
    Seq::new(e.len(), |i: int| e[i].1)
}

proof fn lemma_map_of_sorted<V>(keys: Seq<Seq<char>>, values: Seq<V>, k: Seq<char>, i: int)
    requires
        strictly_sorted(keys),
        0 <= i < keys.len(),
        keys[i] == k,
    ensures
        pairs_map(keys, values).dom().contains(k),
        pairs_map(keys, values)[k] == values[i],
{
    lemma_sorted_index(keys, i);
}

impl<V> TextMap<V> {
    /// Stores `value` under `key`, replacing the value there if any.
    pub fn insert(&mut self, key: String, value: V)
        ensures
            final(self)@ == old(self)@.insert(key@, value),
            final(self).keys().len() == old(self).keys().len() + (if old(self)@.dom().contains(key@) { 0int } else { 1int }),
    {
        proof {
            use_type_invariant(&*self);
        }
        let ghost old_keys = self.keys();
        let ghost old_values = self.values();
        let ghost kv = key@;
        let p = self.search(key.as_str());
        let found = p < self.entries.len() && crate::text::str_eq(self.entries[p].0.as_str(), key.as_str());
        let mut entries: Vec<(String, V)> = Vec::new();
        std::mem::swap(&mut entries, &mut self.entries);
        assert(entry_keys(entries@) == old_keys);
        assert(entry_values(entries@) == old_values);
        if found {
            entries.set(p, (key, value));
            proof {
                let nk = entry_keys(entries@);
                let nv = entry_values(entries@);
                assert(nk =~= old_keys);
                assert(nv =~= old_values.update(p as int, value));
                lemma_sorted_index(old_keys, p as int);
                assert forall|k: Seq<char>| #![trigger pairs_map(nk, nv).dom().contains(k)]
                    pairs_map(nk, nv).dom().contains(k) == pairs_map(old_keys, old_values).insert(kv, value).dom().contains(k)
                by {
                    if k == kv {
                        assert(nk[p as int] == kv);
                    }
                }
                assert forall|k: Seq<char>| pairs_map(nk, nv).dom().contains(k) implies
                    pairs_map(nk, nv)[k] == pairs_map(old_keys, old_values).insert(kv, value)[k]
                by {
                    let j = choose|j: int| 0 <= j < nk.len() && nk[j] == k;
                    lemma_map_of_sorted(nk, nv, k, j);
                    lemma_map_of_sorted(old_keys, old_values, k, j);
                }
                assert(pairs_map(nk, nv) =~= pairs_map(old_keys, old_values).insert(kv, value));
                assert(pairs_map(old_keys, old_values).dom().contains(kv));
            }
        } else {
            entries.insert(p, (key, value));
            proof {
                let nk = entry_keys(entries@);
                let nv = entry_values(entries@);
                assert(nk =~= old_keys.insert(p as int, kv));
                assert(nv =~= old_values.insert(p as int, value));
                if p < old_keys.len() {
                    if old_keys[p as int] != kv {
                        lemma_lex_total(old_keys[p as int], kv);
                    }
                    assert(lex_lt(kv, old_keys[p as int]));
                }
                assert forall|i: int, j: int| 0 <= i < j < nk.len() implies lex_lt(nk[i], nk[j]) by {
                    if j < p {
                        assert(nk[i] == old_keys[i] && nk[j] == old_keys[j]);
                    } else if j == p {
                        assert(nk[i] == old_keys[i]);
                    } else if i > p {
                        assert(nk[i] == old_keys[i - 1] && nk[j] == old_keys[j - 1]);
                    } else if i == p {
                        assert(nk[j] == old_keys[j - 1]);
                        if j - 1 > p {
                            lemma_lex_transitive(kv, old_keys[p as int], old_keys[j - 1]);
                        }
                    } else {
                        assert(nk[i] == old_keys[i] && nk[j] == old_keys[j - 1]);
                        assert(lex_lt(old_keys[i], kv));
                        if j - 1 > p {
                            lemma_lex_transitive(kv, old_keys[p as int], old_keys[j - 1]);
                        }
                        lemma_lex_transitive(old_keys[i], kv, old_keys[j - 1]);
                    }
                }
                assert(!old_keys.contains(kv)) by {
                    if old_keys.contains(kv) {
                        let j = choose|j: int| 0 <= j < old_keys.len() && old_keys[j] == kv;
                        lemma_lex_irreflexive(kv);
                        if j > p {
                            lemma_lex_transitive(kv, old_keys[p as int], old_keys[j]);
                        }
                    }
                }
                assert forall|k: Seq<char>| #![trigger pairs_map(nk, nv).dom().contains(k)]
                    pairs_map(nk, nv).dom().contains(k) == pairs_map(old_keys, old_values).insert(kv, value).dom().contains(k)
                by {
                    if nk.contains(k) {
                        let j = choose|j: int| 0 <= j < nk.len() && nk[j] == k;
                        if j < p {
                            assert(old_keys[j] == k);
                        } else if j > p {
                            assert(old_keys[j - 1] == k);
                        }
                    }
                    if old_keys.contains(k) {
                        let j = choose|j: int| 0 <= j < old_keys.len() && old_keys[j] == k;
                        if j < p {
                            assert(nk[j] == k);
                        } else {
                            assert(nk[j + 1] == k);
                        }
                    }
                    if k == kv {
                        assert(nk[p as int] == kv);
                    }
                }
                assert forall|k: Seq<char>| pairs_map(nk, nv).dom().contains(k) implies
                    pairs_map(nk, nv)[k] == pairs_map(old_keys, old_values).insert(kv, value)[k]
                by {
                    let j = choose|j: int| 0 <= j < nk.len() && nk[j] == k;
                    lemma_map_of_sorted(nk, nv, k, j);
                    if j < p {
                        lemma_map_of_sorted(old_keys, old_values, k, j);
                    } else if j > p {
                        lemma_map_of_sorted(old_keys, old_values, k, j - 1);
                    }
                }
                assert(pairs_map(nk, nv) =~= pairs_map(old_keys, old_values).insert(kv, value));
            }
        }
        self.entries = entries;
    }

    /// Removes `key` and hands back its value, if it was there.
    pub fn take(&mut self, key: &str) -> (r: Option<V>)
        ensures
            final(self)@ == old(self)@.remove(key@),
            match r {
                Some(v) => old(self)@.dom().contains(key@) && v == old(self)@[key@],
                None => !old(self)@.dom().contains(key@),
            },
    {
        proof {
            use_type_invariant(&*self);
        }
        let ghost old_keys = self.keys();
        let ghost old_values = self.values();
        let ghost kv = key@;
        let p = self.search(key);
        let found = p < self.entries.len() && crate::text::str_eq(self.entries[p].0.as_str(), key);
        if !found {
            proof {
                if old_keys.contains(kv) {
                    let j = choose|j: int| 0 <= j < old_keys.len() && old_keys[j] == kv;
                    lemma_lex_irreflexive(kv);
                    if j > p {
                        assert(lex_lt(old_keys[p as int], old_keys[j]));
                        if old_keys[p as int] != kv {
                            lemma_lex_total(old_keys[p as int], kv);
                        }
                    }
                }
                assert(self@ =~= self@.remove(kv));
            }
            return None;
        }
        let mut entries: Vec<(String, V)> = Vec::new();
        std::mem::swap(&mut entries, &mut self.entries);
        assert(entry_keys(entries@) == old_keys);
        assert(entry_values(entries@) == old_values);
        let (_, v) = entries.remove(p);
        proof {
            let nk = entry_keys(entries@);
            let nv = entry_values(entries@);
            assert(nk =~= old_keys.remove(p as int));
            assert(nv =~= old_values.remove(p as int));
            assert(old_keys[p as int] == kv);
            lemma_map_of_sorted(old_keys, old_values, kv, p as int);
            assert forall|i: int, j: int| 0 <= i < j < nk.len() implies lex_lt(nk[i], nk[j]) by {
                if j < p {
                    assert(nk[i] == old_keys[i] && nk[j] == old_keys[j]);
                } else if i < p {
                    assert(nk[i] == old_keys[i] && nk[j] == old_keys[j + 1]);
                } else {
                    assert(nk[i] == old_keys[i + 1] && nk[j] == old_keys[j + 1]);
                }
            }
            assert forall|k: Seq<char>| #![trigger pairs_map(nk, nv).dom().contains(k)]
                pairs_map(nk, nv).dom().contains(k) == pairs_map(old_keys, old_values).remove(kv).dom().contains(k)
            by {
                if nk.contains(k) {
                    let j = choose|j: int| 0 <= j < nk.len() && nk[j] == k;
                    if j < p {
                        assert(old_keys[j] == k);
                        assert(lex_lt(k, kv));
                        lemma_lex_irreflexive(k);
                    } else {
                        assert(old_keys[j + 1] == k);
                        assert(lex_lt(kv, k));
                        lemma_lex_irreflexive(k);
                    }
                }
                if old_keys.contains(k) && k != kv {
                    let j = choose|j: int| 0 <= j < old_keys.len() && old_keys[j] == k;
                    if j < p {
                        assert(nk[j] == k);
                    } else {
                        assert(j != p);
                        assert(nk[j - 1] == k);
                    }
                }
            }
            assert forall|k: Seq<char>| pairs_map(nk, nv).dom().contains(k) implies
                pairs_map(nk, nv)[k] == pairs_map(old_keys, old_values).remove(kv)[k]
            by {
                let j = choose|j: int| 0 <= j < nk.len() && nk[j] == k;
                lemma_map_of_sorted(nk, nv, k, j);
                if j < p {
                    lemma_map_of_sorted(old_keys, old_values, k, j);
                } else {
                    lemma_map_of_sorted(old_keys, old_values, k, j + 1);
                }
            }
            assert(pairs_map(nk, nv) =~= pairs_map(old_keys, old_values).remove(kv));
        }
        self.entries = entries;
        Some(v)
    }

    /// The entries, in increasing key order.
    pub fn into_entries(self) -> (r: Vec<(String, V)>)
        ensures
            entry_keys(r@) == self.keys(),
            entry_values(r@) == self.values(),
            strictly_sorted(self.keys()),
    {
        proof {
            use_type_invariant(&self);
        }
        let TextMap { entries } = self;
        assert(entry_keys(entries@) =~= self.keys());
        assert(entry_values(entries@) =~= self.values());
        entries
    }
}

/// Taking one more key and value of sorted keys adds that key with its
/// value to the map of the shorter prefix.
pub proof fn lemma_pairs_map_take<V>(keys: Seq<Seq<char>>, values: Seq<V>, i: int)
    requires
        strictly_sorted(keys),
        keys.len() == values.len(),
        0 <= i < keys.len(),
    ensures
        pairs_map(keys.take(i + 1), values.take(i + 1)) == pairs_map(keys.take(i), values.take(i)).insert(keys[i], values[i]),
{
    let k1 = keys.take(i + 1);
    let v1 = values.take(i + 1);
    let k0 = keys.take(i);
    let v0 = values.take(i);
    assert(strictly_sorted(k1));
    assert(strictly_sorted(k0));
    assert forall|k: Seq<char>| #![trigger pairs_map(k1, v1).dom().contains(k)]
        pairs_map(k1, v1).dom().contains(k) == pairs_map(k0, v0).insert(keys[i], values[i]).dom().contains(k)
    by {
        if k1.contains(k) {
            let j = choose|j: int| 0 <= j < k1.len() && k1[j] == k;
            if j < i {
                assert(k0[j] == k);
            }
        }
        if k0.contains(k) {
            let j = choose|j: int| 0 <= j < k0.len() && k0[j] == k;
            assert(k1[j] == k);
        }
        if k == keys[i] {
            assert(k1[i] == k);
        }
    }
    assert forall|k: Seq<char>| pairs_map(k1, v1).dom().contains(k) implies
        pairs_map(k1, v1)[k] == pairs_map(k0, v0).insert(keys[i], values[i])[k]
    by {
        let j = choose|j: int| 0 <= j < k1.len() && k1[j] == k;
        lemma_map_of_sorted(k1, v1, k, j);
        if j < i {
            lemma_map_of_sorted(k0, v0, k, j);
            assert(lex_lt(k, keys[i]));
            lemma_lex_irreflexive(k);
        }
    }
    assert(pairs_map(k1, v1) =~= pairs_map(k0, v0).insert(keys[i], values[i]));
}

impl<V> TextMap<V> {
    /// Stores every entry of `other`, so that `other` wins where both hold a
    /// key.
    pub fn extend(&mut self, other: TextMap<V>)
        ensures
            final(self)@ == old(self)@.union_prefer_right(other@),
    {
        let ghost start = self@;
        let ghost ok = other.keys();
        let ghost ov = other.values();
        let ghost om = other@;
        let mut entries = other.into_entries();
        let ghost all = entries@;
        let n = entries.len();
        let mut i: usize = 0;
        while i < n
            invariant
                n == all.len(),
                i <= n,
                entry_keys(all) == ok,
                entry_values(all) == ov,
                strictly_sorted(ok),
                om == pairs_map(ok, ov),
                entries@ == all.skip(i as int),
                self@ == start.union_prefer_right(pairs_map(ok.take(i as int), ov.take(i as int))),
            decreases n - i,
        {
            let (k, v) = entries.remove(0);
            proof {
                assert(all.skip(i as int)[0] == all[i as int]);
                assert(all.skip(i as int).remove(0) =~= all.skip(i + 1));
                assert(k@ == ok[i as int]);
                assert(v == ov[i as int]);
                lemma_pairs_map_take(ok, ov, i as int);
            }
            self.insert(k, v);
            proof {
                assert(self@ =~= start.union_prefer_right(pairs_map(ok.take(i + 1), ov.take(i + 1))));
            }
            i = i + 1;
        }
        proof {
            assert(ok.take(n as int) =~= ok);
            assert(ov.take(n as int) =~= ov);
        }
    }
}

/// What a read gives back of a write: after `insert(k, v)`, `get(k)` gives
/// `v`, and every other key keeps its presence and its value; after
/// `take(k)`, `get(k)` gives nothing and every other key is kept.
pub proof fn lemma_read_after_write<V>(m: Map<Seq<char>, V>, k: Seq<char>, v: V, other: Seq<char>)
    requires
        other != k,
    ensures
        m.insert(k, v).dom().contains(k),
        m.insert(k, v)[k] == v,
        m.insert(k, v).dom().contains(other) == m.dom().contains(other),
        m.dom().contains(other) ==> m.insert(k, v)[other] == m[other],
        !m.remove(k).dom().contains(k),
        m.remove(k).dom().contains(other) == m.dom().contains(other),
        m.dom().contains(other) ==> m.remove(k)[other] == m[other],
{
}

/// Extending keeps every key of either map, the extending map's value
/// winning where both hold a key.
pub proof fn lemma_extend_prefers_other<V>(m: Map<Seq<char>, V>, other: Map<Seq<char>, V>, k: Seq<char>)
    ensures
        m.union_prefer_right(other).dom().contains(k) == (m.dom().contains(k) || other.dom().contains(k)),
        other.dom().contains(k) ==> m.union_prefer_right(other)[k] == other[k],
        m.dom().contains(k) && !other.dom().contains(k) ==> m.union_prefer_right(other)[k] == m[k],
{
}

/// The keys of a set of strings in lexicographic order, each once.
pub open spec fn sorted_keys(keys: Set<Seq<char>>) -> Seq<Seq<char>> {
    choose|s: Seq<Seq<char>>| strictly_sorted(s) && forall|k: Seq<char>| #[trigger] s.contains(k) == keys.contains(k)
}

/// The values of a map, in the lexicographic order of their keys.
pub open spec fn sorted_values<V>(m: Map<Seq<char>, V>) -> Seq<V> {
    sorted_keys(m.dom()).map_values(|k: Seq<char>| m[k])
}

/// Two lists of strictly sorted keys that hold the same keys are the same
/// list.
pub proof fn lemma_sorted_unique(a: Seq<Seq<char>>, b: Seq<Seq<char>>)
    requires
        strictly_sorted(a),
        strictly_sorted(b),
        forall|k: Seq<char>| #[trigger] a.contains(k) == b.contains(k),
    ensures
        a == b,
    decreases a.len(),
{
    if a.len() == 0 {
        if b.len() > 0 {
            assert(b.contains(b[0]));
            assert(a.contains(b[0]));
        }
        assert(a =~= b);
    } else {
        assert(a.contains(a[0]));
        assert(b.contains(a[0]));
        assert(b.len() > 0);
        assert(b.contains(b[0]));
        assert(a.contains(b[0]));
        let i = choose|i: int| 0 <= i < b.len() && b[i] == a[0];
        let j = choose|j: int| 0 <= j < a.len() && a[j] == b[0];
        if a[0] != b[0] {
            assert(i > 0 && j > 0);
            assert(lex_lt(b[0], b[i]));
            assert(lex_lt(a[0], a[j]));
            lemma_lex_transitive(a[0], b[0], a[0]);
            lemma_lex_irreflexive(a[0]);
        }
        let a1 = a.drop_first();
        let b1 = b.drop_first();
        assert forall|k: Seq<char>| #[trigger] a1.contains(k) == b1.contains(k) by {
            if a1.contains(k) {
                let p = choose|p: int| 0 <= p < a1.len() && a1[p] == k;
                assert(a[p + 1] == k);
                assert(lex_lt(a[0], a[p + 1]));
                assert(a.contains(k));
                assert(b.contains(k));
                let q = choose|q: int| 0 <= q < b.len() && b[q] == k;
                if q == 0 {
                    lemma_lex_irreflexive(a[0]);
                }
                assert(b1[q - 1] == k);
            }
            if b1.contains(k) {
                let p = choose|p: int| 0 <= p < b1.len() && b1[p] == k;
                assert(b[p + 1] == k);
                assert(lex_lt(b[0], b[p + 1]));
                assert(a.contains(k));
                let q = choose|q: int| 0 <= q < a.len() && a[q] == k;
                if q == 0 {
                    lemma_lex_irreflexive(b[0]);
                }
                assert(a1[q - 1] == k);
            }
        }
        lemma_sorted_unique(a1, b1);
        assert(a =~= seq![a[0]] + a1);
        assert(b =~= seq![b[0]] + b1);
    }
}

/// A strictly sorted list of exactly the keys of a set is the set's sorted
/// keys.
pub proof fn lemma_sorted_keys_of(s: Seq<Seq<char>>, keys: Set<Seq<char>>)
    requires
        strictly_sorted(s),
        forall|k: Seq<char>| #[trigger] s.contains(k) == keys.contains(k),
    ensures
        sorted_keys(keys) == s,
{
    let t = sorted_keys(keys);
    assert(strictly_sorted(t) && forall|k: Seq<char>| #[trigger] t.contains(k) == keys.contains(k));
    lemma_sorted_unique(t, s);
}

/// Strictly sorted keys with their values are the map's keys in order and
/// its values in that order: the order of a map's entries is fixed by the
/// map.
pub proof fn lemma_sorted_entries<V>(keys: Seq<Seq<char>>, values: Seq<V>)
    requires
        strictly_sorted(keys),
        keys.len() == values.len(),
    ensures
        sorted_keys(pairs_map(keys, values).dom()) == keys,
        sorted_values(pairs_map(keys, values)) == values,
{
    let m = pairs_map(keys, values);
    assert(forall|k: Seq<char>| #[trigger] keys.contains(k) == m.dom().contains(k));
    let s = sorted_keys(m.dom());
    assert(strictly_sorted(s) && forall|k: Seq<char>| #[trigger] s.contains(k) == m.dom().contains(k));
    lemma_sorted_unique(s, keys);
    assert forall|i: int| 0 <= i < keys.len() implies #[trigger] sorted_values(m)[i] == values[i] by {
        lemma_map_of_sorted(keys, values, keys[i], i);
    }
    assert(sorted_values(m) =~= values);
}

} // verus!
