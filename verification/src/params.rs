use vstd::prelude::*;

verus! {

/// Keys of an entry list are pairwise distinct.
pub open spec fn keys_distinct(s: Seq<(String, String)>) -> bool {
    forall|i: int, j: int|
        0 <= i < s.len() && 0 <= j < s.len() && i != j ==> #[trigger] s[i].0@ != #[trigger] s[j].0@
}

/// Some entry of the list has key `k`.
pub open spec fn has_key(s: Seq<(String, String)>, k: Seq<char>) -> bool {
    exists|i: int| 0 <= i < s.len() && #[trigger] s[i].0@ == k
}

/// The index of an entry with key `k` (unique when the keys are distinct).
pub open spec fn key_index(s: Seq<(String, String)>, k: Seq<char>) -> int {
    choose|i: int| 0 <= i < s.len() && #[trigger] s[i].0@ == k
}

/// The map from keys to values that an entry list holds.
pub open spec fn entries_map(s: Seq<(String, String)>) -> Map<Seq<char>, Seq<char>> {
    Map::new(|k: Seq<char>| has_key(s, k), |k: Seq<char>| s[key_index(s, k)].1@)
}

/// The key-value pairs of an entry list, as text.
pub open spec fn pair_views(s: Seq<(String, String)>) -> Seq<(Seq<char>, Seq<char>)> {
    s.map_values(|e: (String, String)| (e.0@, e.1@))
}

/// The position of the pair with key `k` in a pair list.
pub open spec fn pair_position(l: Seq<(Seq<char>, Seq<char>)>, k: Seq<char>) -> int {
    choose|i: int| 0 <= i < l.len() && #[trigger] l[i].0 == k
}

/// Parameters of an action: string keys mapped to string values, each key at most once.
pub struct ActionParams {
    entries: Vec<(String, String)>,
}

impl View for ActionParams {
    type V = Map<Seq<char>, Seq<char>>;

    closed spec fn view(&self) -> Map<Seq<char>, Seq<char>> {
        entries_map(self.entries@)
    }
}

/// In a list with distinct keys, the entry at `i` is the one the map gives for its key.
proof fn lemma_entry_in_map(s: Seq<(String, String)>, i: int)
    requires
        keys_distinct(s),
        0 <= i < s.len(),
    ensures
        entries_map(s).dom().contains(s[i].0@),
        entries_map(s)[s[i].0@] == s[i].1@,
{
    let k = s[i].0@;
    assert(has_key(s, k));
    let j = key_index(s, k);
    assert(s[j].0@ == k);
}

/// The value of `key`, or the empty string where the key is absent.
pub open spec fn param_value(p: Map<Seq<char>, Seq<char>>, key: Seq<char>) -> Seq<char> {
    if p.dom().contains(key) {
        p[key]
    } else {
        Seq::empty()
    }
}

impl ActionParams {
    /// The key-value pairs in the order their keys were first stored.
    pub closed spec fn pair_list(&self) -> Seq<(Seq<char>, Seq<char>)> {
        pair_views(self.entries@)
    }

    #[verifier::type_invariant]
    spec fn inv(self) -> bool {
        keys_distinct(self.entries@)
    }

    /// An empty parameter map.
    pub fn new() -> (p: Self)
        ensures
            p@ == Map::<Seq<char>, Seq<char>>::empty(),
            p.pair_list() == Seq::<(Seq<char>, Seq<char>)>::empty(),
    {
        let p = ActionParams { entries: Vec::new() };
        assert(p@ =~= Map::<Seq<char>, Seq<char>>::empty());
        assert(p.pair_list() =~= Seq::<(Seq<char>, Seq<char>)>::empty());
        p
    }

    /// Number of keys.
    pub fn len(&self) -> (n: usize)
        ensures
            n == self@.dom().len(),
    {
        proof {
            use_type_invariant(self);
            self.lemma_dom_len();
        }
        self.entries.len()
    }

    proof fn lemma_dom_len(&self)
        requires
            keys_distinct(self.entries@),
        ensures
            self@.dom().len() == self.entries@.len(),
            self@.dom().finite(),
    {
        let s = self.entries@;
        let keys = s.map_values(|e: (String, String)| e.0@);
        assert(keys.no_duplicates()) by {
            assert forall|i: int, j: int| 0 <= i < keys.len() && 0 <= j < keys.len() && i != j
                implies keys[i] != keys[j] by {
                assert(s[i].0@ != s[j].0@);
            }
        }
        assert(self@.dom() =~= keys.to_set()) by {
            assert forall|k: Seq<char>| self@.dom().contains(k) implies keys.to_set().contains(k) by {
                let i = key_index(s, k);
                assert(keys[i] == k);
            }
            assert forall|k: Seq<char>| keys.to_set().contains(k) implies self@.dom().contains(k) by {
                let i = choose|i: int| 0 <= i < keys.len() && keys[i] == k;
                assert(s[i].0@ == k);
            }
        }
        keys.unique_seq_to_set();
    }

    /// Finds the position of `key`, if present.
    fn find(&self, key: &str) -> (r: Option<usize>)
        ensures
            match r {
                Some(i) => i < self.entries@.len() && self.entries@[i as int].0@ == key@,
                None => !has_key(self.entries@, key@),
            },
    {
        let k = key.to_owned();
        let mut i: usize = 0;
        while i < self.entries.len()
            invariant
                k@ == key@,
                i <= self.entries@.len(),
                forall|j: int| 0 <= j < i ==> #[trigger] self.entries@[j].0@ != key@,
            decreases self.entries@.len() - i,
        {
            if self.entries[i].0 == k {
                return Some(i);
            }
            i = i + 1;
        }
        None
    }

    /// The value stored under `key`.
    pub fn get(&self, key: &str) -> (r: Option<&String>)
        ensures
            match r {
                Some(v) => self@.dom().contains(key@) && v@ == self@[key@],
                None => !self@.dom().contains(key@),
            },
    {
        proof {
            use_type_invariant(self);
        }
        match self.find(key) {
            Some(i) => {
                proof {
                    lemma_entry_in_map(self.entries@, i as int);
                }
                Some(&self.entries[i].1)
            },
            None => None,
        }
    }

    /// Stores `value` under `key`, handing back the value it replaces.
    pub fn insert(&mut self, key: String, value: String) -> (r: Option<String>)
        ensures
            final(self)@ == old(self)@.insert(key@, value@),
            !old(self)@.dom().contains(key@) ==> final(self).pair_list() == old(self).pair_list().push((key@, value@)),
            old(self)@.dom().contains(key@) ==> final(self).pair_list() == old(self).pair_list().update(
                pair_position(old(self).pair_list(), key@),
                (key@, value@),
            ),
            match r {
                Some(v) => old(self)@.dom().contains(key@) && v@ == old(self)@[key@],
                None => !old(self)@.dom().contains(key@),
            },
    {
        proof {
            use_type_invariant(&*self);
        }
        let ghost s0 = self.entries@;
        let found = self.find(key.as_str());
        let mut entries: Vec<(String, String)> = Vec::new();
        std::mem::swap(&mut entries, &mut self.entries);
        assert(entries@ == s0);
        match found {
            Some(i) => {
                proof {
                    lemma_entry_in_map(s0, i as int);
                }
                let old_entry = entries.remove(i);
                entries.insert(i, (key, value));
                proof {
                    let s1 = entries@;
                    let l0 = pair_views(s0);
                    assert(l0[i as int].0 == key@);
                    let j = pair_position(l0, key@);
                    assert(s0[j].0@ == key@);
                    assert(j == i);
                    assert(pair_views(s1) =~= l0.update(i as int, (key@, value@)));
                    assert(s1 =~= s0.update(i as int, s1[i as int]));
                    assert(keys_distinct(s1));
                    assert forall|k: Seq<char>| #![auto]
                        entries_map(s1).dom().contains(k) == entries_map(s0).insert(key@, value@).dom().contains(k) by {
                        if has_key(s0, k) {
                            let j = key_index(s0, k);
                            assert(s1[j].0@ == k);
                        }
                        if has_key(s1, k) {
                            let j = key_index(s1, k);
                            if j != i {
                                assert(s0[j].0@ == k);
                            }
                        }
                    }
                    assert forall|k: Seq<char>| #[trigger] entries_map(s1).dom().contains(k)
                        implies entries_map(s1)[k] == entries_map(s0).insert(key@, value@)[k] by {
                        let j = key_index(s1, k);
                        lemma_entry_in_map(s1, j);
                        if j != i {
                            lemma_entry_in_map(s0, j);
                        }
                    }
                    assert(entries_map(s1) =~= entries_map(s0).insert(key@, value@));
                }
                self.entries = entries;
                Some(old_entry.1)
            },
            None => {
                entries.push((key, value));
                proof {
                    let s1 = entries@;
                    assert(pair_views(s1) =~= pair_views(s0).push((key@, value@)));
                    assert(keys_distinct(s1));
                    assert forall|k: Seq<char>| #![auto]
                        entries_map(s1).dom().contains(k) == entries_map(s0).insert(key@, value@).dom().contains(k) by {
                        if has_key(s0, k) {
                            let j = key_index(s0, k);
                            assert(s1[j].0@ == k);
                        }
                        if k == key@ {
                            assert(s1[s0.len() as int].0@ == k);
                        }
                        if has_key(s1, k) {
                            let j = key_index(s1, k);
                            if j < s0.len() {
                                assert(s0[j].0@ == k);
                            }
                        }
                    }
                    assert forall|k: Seq<char>| #[trigger] entries_map(s1).dom().contains(k)
                        implies entries_map(s1)[k] == entries_map(s0).insert(key@, value@)[k] by {
                        let j = key_index(s1, k);
                        lemma_entry_in_map(s1, j);
                        if j < s0.len() {
                            lemma_entry_in_map(s0, j);
                        }
                    }
                    assert(entries_map(s1) =~= entries_map(s0).insert(key@, value@));
                }
                self.entries = entries;
                None
            },
        }
    }

    /// The stored key-value pairs, each key once, in insertion order.
    pub fn entries(&self) -> (r: &Vec<(String, String)>)
        ensures
            keys_distinct(r@),
            entries_map(r@) == self@,
            pair_views(r@) == self.pair_list(),
    {
        proof {
            use_type_invariant(self);
        }
        &self.entries
    }

    /// The value of `key` as an owned string, empty where the key is absent.
    pub fn value_or_empty(&self, key: &str) -> (s: String)
        ensures
            s@ == param_value(self@, key@),
    {
        match self.get(key) {
            Some(v) => v.clone(),
            None => String::new(),
        }
    }
}

/// After storing a value under a key, reading that key gives the value and
/// every other key reads as before.
pub proof fn lemma_read_after_insert(m: Map<Seq<char>, Seq<char>>, k: Seq<char>, v: Seq<char>, other: Seq<char>)
    ensures
        param_value(m.insert(k, v), k) == v,
        other != k ==> param_value(m.insert(k, v), other) == param_value(m, other),
{
}

} // verus!
