//! Named substitution values for message templates.
//!
//! An [`Args`] value is a finite mapping from placeholder names to the text
//! that replaces them. It keeps its entries in the order in which their keys
//! first arrived, and never holds a key twice.

use vstd::prelude::*;

verus! {

/// A list of key and value pairs, as plain text.
pub type Pairs = Seq<(Seq<char>, Seq<char>)>;

/// Whether no two entries of `pairs` share their key.
pub open spec fn keys_distinct(pairs: Pairs) -> bool {
    forall|i: int, j: int| 0 <= i < j < pairs.len() ==> pairs[i].0 != pairs[j].0
}

/// Whether `pairs` has an entry under `key`.
pub open spec fn has_key(pairs: Pairs, key: Seq<char>) -> bool {
    exists|i: int| 0 <= i < pairs.len() && pairs[i].0 == key
}

/// The position of an entry of `pairs` under `key`.
pub open spec fn position_of(pairs: Pairs, key: Seq<char>) -> int {
    choose|i: int| 0 <= i < pairs.len() && pairs[i].0 == key
}

/// The mapping that a list of pairs stands for.
pub open spec fn pairs_to_map(pairs: Pairs) -> Map<Seq<char>, Seq<char>> {
    Map::new(|k: Seq<char>| has_key(pairs, k), |k: Seq<char>| pairs[position_of(pairs, k)].1)
}

/// A list of pairs after `value` is put under `key`: in the place of the
/// entry under that key, or behind all entries where there is none.
pub open spec fn pairs_insert(pairs: Pairs, key: Seq<char>, value: Seq<char>) -> Pairs {
    if has_key(pairs, key) {
        pairs.update(position_of(pairs, key), (key, value))
    } else {
        pairs.push((key, value))
    }
}

/// With distinct keys, the entry at position `i` is what the mapping holds
/// under that entry's key.
pub proof fn lemma_pairs_lookup(pairs: Pairs, i: int)
    requires
        keys_distinct(pairs),
        0 <= i < pairs.len(),
    ensures
        pairs_to_map(pairs).contains_key(pairs[i].0),
        pairs_to_map(pairs)[pairs[i].0] == pairs[i].1,
{
    let k = pairs[i].0;
    assert(has_key(pairs, k));
    let p = position_of(pairs, k);
    assert(0 <= p < pairs.len() && pairs[p].0 == k);
    assert(p == i);
}

/// Appending an entry under a new key inserts it into the mapping.
pub proof fn lemma_pairs_push(pairs: Pairs, key: Seq<char>, value: Seq<char>)
    requires
        keys_distinct(pairs),
        !has_key(pairs, key),
    ensures
        keys_distinct(pairs.push((key, value))),
        pairs_to_map(pairs.push((key, value))) == pairs_to_map(pairs).insert(key, value),
{
    let after = pairs.push((key, value));
    assert forall|i: int, j: int| 0 <= i < j < after.len() implies after[i].0 != after[j].0 by {
        if j == pairs.len() {
            assert(pairs[i].0 != key);
        }
    }
    assert forall|k: Seq<char>| has_key(after, k) <==> (k == key || has_key(pairs, k)) by {
        if has_key(after, k) {
            let p = position_of(after, k);
            if p < pairs.len() {
                assert(pairs[p].0 == k);
            }
        }
        if k == key {
            assert(after[pairs.len() as int].0 == k);
        }
        if has_key(pairs, k) {
            let p = position_of(pairs, k);
            assert(after[p].0 == k);
        }
    }
    assert forall|k: Seq<char>| has_key(after, k) implies #[trigger] pairs_to_map(after)[k]
        == pairs_to_map(pairs).insert(key, value)[k] by {
        let p = position_of(after, k);
        lemma_pairs_lookup(after, p);
        if p < pairs.len() {
            lemma_pairs_lookup(pairs, p);
        }
    }
    assert(pairs_to_map(after) =~= pairs_to_map(pairs).insert(key, value));
}

/// Replacing the value of the entry at position `i` replaces it in the
/// mapping.
pub proof fn lemma_pairs_update(pairs: Pairs, i: int, value: Seq<char>)
    requires
        keys_distinct(pairs),
        0 <= i < pairs.len(),
    ensures
        keys_distinct(pairs.update(i, (pairs[i].0, value))),
        pairs_to_map(pairs.update(i, (pairs[i].0, value))) == pairs_to_map(pairs).insert(
            pairs[i].0,
            value,
        ),
{
    let key = pairs[i].0;
    let after = pairs.update(i, (key, value));
    assert forall|a: int, b: int| 0 <= a < b < after.len() implies after[a].0 != after[b].0 by {
        assert(after[a].0 == pairs[a].0);
        assert(after[b].0 == pairs[b].0);
    }
    assert forall|k: Seq<char>| has_key(after, k) <==> (k == key || has_key(pairs, k)) by {
        if has_key(after, k) {
            let p = position_of(after, k);
            assert(pairs[p].0 == k);
        }
        if k == key {
            assert(after[i].0 == k);
        }
        if has_key(pairs, k) {
            let p = position_of(pairs, k);
            assert(after[p].0 == k);
        }
    }
    assert forall|k: Seq<char>| has_key(after, k) implies #[trigger] pairs_to_map(after)[k]
        == pairs_to_map(pairs).insert(key, value)[k] by {
        let p = position_of(after, k);
        lemma_pairs_lookup(after, p);
        if p != i {
            lemma_pairs_lookup(pairs, p);
        }
    }
    assert(pairs_to_map(after) =~= pairs_to_map(pairs).insert(key, value));
}

/// Putting a value under a key keeps the keys distinct, and inserts the
/// value into the mapping.
pub proof fn lemma_pairs_insert(pairs: Pairs, key: Seq<char>, value: Seq<char>)
    requires
        keys_distinct(pairs),
    ensures
        keys_distinct(pairs_insert(pairs, key, value)),
        pairs_to_map(pairs_insert(pairs, key, value)) == pairs_to_map(pairs).insert(key, value),
{
    if has_key(pairs, key) {
        let at = position_of(pairs, key);
        lemma_pairs_update(pairs, at, value);
    } else {
        lemma_pairs_push(pairs, key, value);
    }
}

/// A finite mapping from placeholder names to replacement text.
#[derive(Debug)]
pub struct Args {
    entries: Vec<(String, String)>,
}

impl Args {
    /// The entries as plain text, in the order in which their keys arrived.
    pub closed spec fn pairs(&self) -> Pairs {
        Seq::new(self.entries.len() as nat, |i: int| (self.entries[i].0@, self.entries[i].1@))
    }

    /// No key occurs twice: this holds of every value of the type.
    #[verifier::type_invariant]
    pub open spec fn no_key_twice(&self) -> bool {
        keys_distinct(self.pairs())
    }

    /// The empty mapping.
    pub fn new() -> (args: Args)
        ensures
            args@ == Map::<Seq<char>, Seq<char>>::empty(),
            args.pairs() == Seq::<(Seq<char>, Seq<char>)>::empty(),
    {
        let args = Args { entries: Vec::new() };
        assert(args.pairs() =~= Seq::<(Seq<char>, Seq<char>)>::empty());
        assert(pairs_to_map(args.pairs()) =~= Map::<Seq<char>, Seq<char>>::empty());
        args
    }

    /// The number of entries.
    pub fn len(&self) -> (n: usize)
        ensures
            n == self.pairs().len(),
    {
        self.entries.len()
    }

    /// The key of the entry at position `i`.
    pub fn key_at(&self, i: usize) -> (key: &String)
        requires
            i < self.pairs().len(),
        ensures
            key@ == self.pairs()[i as int].0,
    {
        &self.entries[i].0
    }

    /// The value of the entry at position `i`.
    pub fn value_at(&self, i: usize) -> (value: &String)
        requires
            i < self.pairs().len(),
        ensures
            value@ == self.pairs()[i as int].1,
    {
        &self.entries[i].1
    }

    /// The value under `key`, if there is one.
    pub fn get(&self, key: &str) -> (found: Option<&String>)
        ensures
            found is Some <==> self@.contains_key(key@),
            found matches Some(value) ==> value@ == self@[key@],
    {
        proof {
            use_type_invariant(self);
        }
        let wanted = key.to_owned();
        let mut i: usize = 0;
        while i < self.entries.len()
            invariant
                i <= self.entries.len(),
                wanted@ == key@,
                keys_distinct(self.pairs()),
                forall|j: int| 0 <= j < i ==> self.pairs()[j].0 != key@,
            decreases self.entries.len() - i,
        {
            if self.entries[i].0 == wanted {
                proof {
                    lemma_pairs_lookup(self.pairs(), i as int);
                }
                return Some(&self.entries[i].1);
            }
            i = i + 1;
        }
        None
    }

    /// Puts `value` under `key`, in place of what was there.
    pub fn insert(&mut self, key: String, value: String)
        ensures
            final(self)@ == old(self)@.insert(key@, value@),
            final(self).pairs() == pairs_insert(old(self).pairs(), key@, value@),
    {
        proof {
            use_type_invariant(&*self);
        }
        let ghost before = self.pairs();
        let mut entries: Vec<(String, String)> = Vec::new();
        std::mem::swap(&mut entries, &mut self.entries);
        assert(before =~= Seq::new(entries.len() as nat, |i: int| (entries[i].0@, entries[i].1@)));
        let mut i: usize = 0;
        while i < entries.len()
            invariant
                i <= entries.len(),
                before.len() == entries.len(),
                forall|j: int| 0 <= j < entries.len() ==> before[j] == (entries[j].0@, entries[j].1@),
                forall|j: int| 0 <= j < i ==> before[j].0 != key@,
                keys_distinct(before),
                before == old(self).pairs(),
            decreases entries.len() - i,
        {
            if entries[i].0 == key {
                entries.set(i, (key, value));
                proof {
                    lemma_pairs_update(before, i as int, value@);
                    assert(Seq::new(entries.len() as nat, |j: int| (entries[j].0@, entries[j].1@))
                        =~= before.update(i as int, (before[i as int].0, value@)));
                    assert(has_key(before, key@));
                    assert(position_of(before, key@) == i);
                }
                self.entries = entries;
                return ;
            }
            i = i + 1;
        }
        entries.push((key, value));
        proof {
            assert(!has_key(before, key@));
            lemma_pairs_push(before, key@, value@);
            assert(Seq::new(entries.len() as nat, |j: int| (entries[j].0@, entries[j].1@))
                =~= before.push((key@, value@)));
        }
        self.entries = entries;
    }

    /// The mapping that holds every entry of `self` and, under the keys that
    /// `self` lacks, the entries of `base`.
    pub fn merged_over(&self, base: &Args) -> (merged: Args)
        ensures
            merged@ == base@.union_prefer_right(self@),
    {
        let mut merged = base.clone();
        let mut i: usize = 0;
        proof {
            use_type_invariant(self);
            assert(pairs_to_map(self.pairs().take(0)) =~= Map::<Seq<char>, Seq<char>>::empty());
            assert(merged@ =~= base@.union_prefer_right(pairs_to_map(self.pairs().take(0))));
        }
        while i < self.entries.len()
            invariant
                i <= self.entries.len(),
                self.entries.len() == self.pairs().len(),
                keys_distinct(self.pairs()),
                merged@ == base@.union_prefer_right(pairs_to_map(self.pairs().take(i as int))),
            decreases self.entries.len() - i,
        {
            proof {
                let head = self.pairs().take(i as int);
                let entry = self.pairs()[i as int];
                assert(self.pairs().take(i + 1) =~= head.push(entry));
                assert(keys_distinct(head));
                assert(!has_key(head, entry.0)) by {
                    if has_key(head, entry.0) {
                        let p = position_of(head, entry.0);
                        assert(self.pairs()[p].0 == self.pairs()[i as int].0);
                    }
                }
                lemma_pairs_push(head, entry.0, entry.1);
                assert(base@.union_prefer_right(pairs_to_map(head)).insert(entry.0, entry.1)
                    =~= base@.union_prefer_right(pairs_to_map(head).insert(entry.0, entry.1)));
            }
            merged.insert(self.entries[i].0.clone(), self.entries[i].1.clone());
            i = i + 1;
        }
        assert(self.pairs().take(i as int) =~= self.pairs());
        merged
    }
}

impl View for Args {
    type V = Map<Seq<char>, Seq<char>>;

    open spec fn view(&self) -> Map<Seq<char>, Seq<char>> {
        pairs_to_map(self.pairs())
    }
}

impl Clone for Args {
    fn clone(&self) -> (copy: Args)
        ensures
            copy@ == self@,
            copy.pairs() == self.pairs(),
    {
        proof {
            use_type_invariant(self);
        }
        let mut entries: Vec<(String, String)> = Vec::new();
        let mut i: usize = 0;
        while i < self.entries.len()
            invariant
                i <= self.entries.len(),
                entries.len() == i,
                forall|j: int|
                    0 <= j < i ==> entries[j].0@ == self.entries[j].0@ && entries[j].1@
                        == self.entries[j].1@,
            decreases self.entries.len() - i,
        {
            entries.push((self.entries[i].0.clone(), self.entries[i].1.clone()));
            i = i + 1;
        }
        let ghost pairs = Seq::new(entries.len() as nat, |i: int| (entries[i].0@, entries[i].1@));
        assert(pairs =~= self.pairs());
        Args { entries }
    }
}

} // verus!
