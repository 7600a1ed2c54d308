//! A table keyed by strings: the map behind language resources and directory
//! subscriptions. Entries are kept in a vector with no key occurring twice.
use vstd::prelude::*;

verus! {

/// The map that a list of entries describes (later entries win).
pub open spec fn entries_map<V>(s: Seq<(String, V)>) -> Map<Seq<char>, V>
    decreases s.len(),
{
    if s.len() == 0 {
        Map::empty()
    } else {
        entries_map(s.drop_last()).insert(s.last().0@, s.last().1)
    }
}

/// No key occurs twice in the list of entries.
pub open spec fn distinct_keys<V>(s: Seq<(String, V)>) -> bool {
    forall|i: int, j: int| 0 <= i < j < s.len() ==> s[i].0@ != s[j].0@
}

proof fn lemma_entries_map_dom<V>(s: Seq<(String, V)>)
    ensures
        forall|k: Seq<char>|
            entries_map(s).dom().contains(k) <==> exists|i: int| 0 <= i < s.len() && s[i].0@ == k,
    decreases s.len(),
{
    if s.len() > 0 {
        let t = s.drop_last();
        lemma_entries_map_dom(t);
        assert forall|k: Seq<char>|
            entries_map(s).dom().contains(k) <==> exists|i: int| 0 <= i < s.len() && s[i].0@ == k by {
            if entries_map(s).dom().contains(k) {
                if k == s.last().0@ {
                    assert(s[s.len() - 1].0@ == k);
                } else {
                    assert(entries_map(t).dom().contains(k));
                    let i = choose|i: int| 0 <= i < t.len() && t[i].0@ == k;
                    assert(s[i].0@ == k);
                }
            }
            if exists|i: int| 0 <= i < s.len() && s[i].0@ == k {
                let i = choose|i: int| 0 <= i < s.len() && s[i].0@ == k;
                if i < s.len() - 1 {
                    assert(t[i].0@ == k);
                    assert(entries_map(t).dom().contains(k));
                }
            }
        }
    }
}

proof fn lemma_entries_map_value<V>(s: Seq<(String, V)>, i: int)
    requires
        distinct_keys(s),
        0 <= i < s.len(),
    ensures
        entries_map(s).dom().contains(s[i].0@),
        entries_map(s)[s[i].0@] == s[i].1,
    decreases s.len(),
{
    if i < s.len() - 1 {
        let t = s.drop_last();
        assert(t[i] == s[i]);
        assert(distinct_keys(t));
        lemma_entries_map_value(t, i);
        assert(s[i].0@ != s[s.len() - 1].0@);
    }
}

/// A map from strings to values.
pub struct StrKeyTable<V> {
    entries: Vec<(String, V)>,
}

impl<V> View for StrKeyTable<V> {
    type V = Map<Seq<char>, V>;

    closed spec fn view(&self) -> Map<Seq<char>, V> {
        entries_map(self.entries@)
    }
}

impl<V> StrKeyTable<V> {
    #[verifier::type_invariant]
    closed spec fn keys_are_distinct(self) -> bool {
        distinct_keys(self.entries@)
    }

    /// An empty table.
    pub fn new() -> (res: Self)
        ensures
            res@ == Map::<Seq<char>, V>::empty(),
    {
        StrKeyTable { entries: Vec::new() }
    }

    /// The index of the entry for `key`, if there is one.
    fn find(&self, key: &str) -> (res: Option<usize>)
        ensures
            match res {
                Some(i) => i < self.entries@.len() && self.entries@[i as int].0@ == key@,
                None => !self@.contains_key(key@),
            },
    {
        proof {
            use_type_invariant(self);
            lemma_entries_map_dom(self.entries@);
        }
        let k = key.to_owned();
        let n = self.entries.len();
        let mut i: usize = 0;
        while i < n
            invariant
                n == self.entries@.len(),
                i <= n,
                k@ == key@,
                forall|j: int| 0 <= j < i ==> self.entries@[j].0@ != key@,
            decreases n - i,
        {
            if self.entries[i].0 == k {
                return Some(i);
            }
            i = i + 1;
        }
        None
    }

    /// Whether the table has an entry for `key`.
    pub fn contains_key(&self, key: &str) -> (res: bool)
        ensures
            res == self@.contains_key(key@),
    {
        proof {
            use_type_invariant(self);
        }
        match self.find(key) {
            Some(i) => {
                proof {
                    lemma_entries_map_value(self.entries@, i as int);
                }
                true
            },
            None => false,
        }
    }

    /// The value stored for `key`, if there is one.
    pub fn get(&self, key: &str) -> (res: Option<&V>)
        ensures
            match res {
                Some(v) => self@.contains_key(key@) && *v == self@[key@],
                None => !self@.contains_key(key@),
            },
    {
        proof {
            use_type_invariant(self);
        }
        match self.find(key) {
            Some(i) => {
                proof {
                    lemma_entries_map_value(self.entries@, i as int);
                }
                Some(&self.entries[i].1)
            },
            None => None,
        }
    }

    /// Stores `value` for `key`, replacing what was stored for it before.
    pub fn insert(&mut self, key: String, value: V)
        ensures
            final(self)@ == old(self)@.insert(key@, value),
    {
        proof {
            use_type_invariant(&*self);
        }
        let found = self.find(key.as_str());
        let mut entries: Vec<(String, V)> = Vec::new();
        std::mem::swap(&mut entries, &mut self.entries);
        let ghost old_entries = entries@;
        proof {
            lemma_entries_map_dom(old_entries);
        }
        match found {
            Some(i) => {
                entries.set(i, (key, value));
                let ghost new_entries = entries@;
                proof {
                    assert(new_entries == old_entries.update(i as int, new_entries[i as int]));
                    assert(distinct_keys(new_entries)) by {
                        assert forall|a: int, b: int| 0 <= a < b < new_entries.len() implies new_entries[a].0@
                            != new_entries[b].0@ by {
                            assert(old_entries[a].0@ != old_entries[b].0@);
                        }
                    }
                    lemma_entries_map_dom(new_entries);
                    let m_old = entries_map(old_entries);
                    let m_new = entries_map(new_entries);
                    let target = m_old.insert(new_entries[i as int].0@, new_entries[i as int].1);
                    assert forall|k: Seq<char>| m_new.dom().contains(k) <==> target.dom().contains(k) by {
                        if m_new.dom().contains(k) {
                            let j = choose|j: int| 0 <= j < new_entries.len() && new_entries[j].0@ == k;
                            if j != i {
                                assert(old_entries[j].0@ == k);
                            }
                        }
                        if target.dom().contains(k) && k != new_entries[i as int].0@ {
                            let j = choose|j: int| 0 <= j < old_entries.len() && old_entries[j].0@ == k;
                            assert(new_entries[j].0@ == k);
                        }
                    }
                    assert forall|k: Seq<char>| m_new.dom().contains(k) implies m_new[k] == target[k] by {
                        let j = choose|j: int| 0 <= j < new_entries.len() && new_entries[j].0@ == k;
                        lemma_entries_map_value(new_entries, j);
                        if j != i {
                            lemma_entries_map_value(old_entries, j);
                        }
                    }
                    assert(m_new =~= target);
                }
            },
            None => {
                entries.push((key, value));
                let ghost new_entries = entries@;
                proof {
                    assert(new_entries.drop_last() =~= old_entries);
                    assert(distinct_keys(new_entries)) by {
                        assert forall|a: int, b: int| 0 <= a < b < new_entries.len() implies new_entries[a].0@
                            != new_entries[b].0@ by {
                            if b == new_entries.len() - 1 {
                                assert(old_entries[a].0@ != key@) by {
                                    if old_entries[a].0@ == key@ {
                                        assert(entries_map(old_entries).dom().contains(key@));
                                    }
                                }
                            }
                        }
                    }
                }
            },
        }
        self.entries = entries;
    }

    /// Removes the entry for `key`, giving back its value if there was one.
    pub fn remove(&mut self, key: &str) -> (res: Option<V>)
        ensures
            final(self)@ == old(self)@.remove(key@),
            res == (if old(self)@.contains_key(key@) {
                Some(old(self)@[key@])
            } else {
                None
            }),
    {
        proof {
            use_type_invariant(&*self);
        }
        let found = self.find(key);
        match found {
            None => {
                assert(self@.remove(key@) =~= self@);
                None
            },
            Some(i) => {
                let mut entries: Vec<(String, V)> = Vec::new();
                std::mem::swap(&mut entries, &mut self.entries);
                let ghost old_entries = entries@;
                let removed = entries.remove(i);
                let ghost new_entries = entries@;
                proof {
                    lemma_entries_map_dom(old_entries);
                    lemma_entries_map_value(old_entries, i as int);
                    assert(new_entries == old_entries.remove(i as int));
                    assert(distinct_keys(new_entries)) by {
                        assert forall|a: int, b: int| 0 <= a < b < new_entries.len() implies new_entries[a].0@
                            != new_entries[b].0@ by {
                            let oa = if a < i { a } else { a + 1 };
                            let ob = if b < i { b } else { b + 1 };
                            assert(new_entries[a] == old_entries[oa]);
                            assert(new_entries[b] == old_entries[ob]);
                        }
                    }
                    lemma_entries_map_dom(new_entries);
                    let m_old = entries_map(old_entries);
                    let m_new = entries_map(new_entries);
                    let target = m_old.remove(key@);
                    assert forall|k: Seq<char>| m_new.dom().contains(k) <==> target.dom().contains(k) by {
                        if m_new.dom().contains(k) {
                            let j = choose|j: int| 0 <= j < new_entries.len() && new_entries[j].0@ == k;
                            let oj = if j < i { j } else { j + 1 };
                            assert(old_entries[oj].0@ == k);
                            assert(oj != i);
                        }
                        if target.dom().contains(k) {
                            let j = choose|j: int| 0 <= j < old_entries.len() && old_entries[j].0@ == k;
                            assert(j != i);
                            let nj = if j < i { j } else { j - 1 };
                            assert(new_entries[nj].0@ == k);
                        }
                    }
                    assert forall|k: Seq<char>| m_new.dom().contains(k) implies m_new[k] == target[k] by {
                        let j = choose|j: int| 0 <= j < new_entries.len() && new_entries[j].0@ == k;
                        let oj = if j < i { j } else { j + 1 };
                        lemma_entries_map_value(new_entries, j);
                        lemma_entries_map_value(old_entries, oj);
                    }
                    assert(m_new =~= target);
                }
                self.entries = entries;
                Some(removed.1)
            },
        }
    }
}

} // verus!
