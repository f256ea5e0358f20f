//! A small association list from names to string values, insertion-ordered,
//! with unique keys and last-write-wins insertion.  It stands behind the
//! local file index and the link set.
use vstd::prelude::*;

verus! {

/// What a key resolves to in an entry list: the value of the latest entry
/// carrying it, if any.
pub open spec fn lookup(s: Seq<(String, String)>, k: Seq<char>) -> Option<Seq<char>>
    decreases s.len(),
{
    if s.len() == 0 {
        None::<Seq<char>>
    } else if s.last().0@ == k {
        Some(s.last().1@)
    } else {
        lookup(s.drop_last(), k)
    }
}

/// No two entries carry the same key.
pub open spec fn keys_unique(s: Seq<(String, String)>) -> bool {
    forall|i: int, j: int| 0 <= i < j < s.len() ==> s[i].0@ != s[j].0@
}

/// A key resolves exactly when some entry carries it.
pub proof fn lemma_lookup_index(s: Seq<(String, String)>, k: Seq<char>)
    ensures
        (lookup(s, k) is Some) <==> (exists|i: int| 0 <= i < s.len() && s[i].0@ == k),
    decreases s.len(),
{
    if s.len() > 0 {
        lemma_lookup_index(s.drop_last(), k);
        if s.last().0@ == k {
            assert(s[s.len() - 1].0@ == k);
        } else {
            if exists|i: int| 0 <= i < s.len() && s[i].0@ == k {
                let i = choose|i: int| 0 <= i < s.len() && s[i].0@ == k;
                assert(s.drop_last()[i] == s[i]);
            }
        }
    }
}

/// Under unique keys, the entry carrying a key decides what it resolves to.
pub proof fn lemma_lookup_at(s: Seq<(String, String)>, k: Seq<char>, i: int)
    requires
        keys_unique(s),
        0 <= i < s.len(),
        s[i].0@ == k,
    ensures
        lookup(s, k) == Some(s[i].1@),
    decreases s.len(),
{
    if i < s.len() - 1 {
        assert(s.drop_last()[i] == s[i]);
        lemma_lookup_at(s.drop_last(), k, i);
    }
}

/// Removing an entry takes exactly its key out of resolution.
pub proof fn lemma_lookup_remove(s: Seq<(String, String)>, i: int, k2: Seq<char>)
    requires
        keys_unique(s),
        0 <= i < s.len(),
    ensures
        lookup(s.remove(i), k2) == if k2 == s[i].0@ {
            None::<Seq<char>>
        } else {
            lookup(s, k2)
        },
    decreases s.len(),
{
    if i == s.len() - 1 {
        assert(s.remove(i) =~= s.drop_last());
        if k2 == s[i].0@ {
            lemma_lookup_index(s.drop_last(), k2);
            assert forall|j: int| 0 <= j < s.drop_last().len() implies s.drop_last()[j].0@ != k2 by {
                assert(s.drop_last()[j] == s[j]);
            }
        }
    } else {
        assert(s.remove(i).last() == s.last());
        assert(s.remove(i).drop_last() =~= s.drop_last().remove(i));
        assert(keys_unique(s.drop_last())) by {
            assert forall|a: int, b: int|
                0 <= a < b < s.drop_last().len() implies s.drop_last()[a].0@
                != s.drop_last()[b].0@ by {
                assert(s.drop_last()[a] == s[a] && s.drop_last()[b] == s[b]);
            }
        }
        assert(s.drop_last()[i] == s[i]);
        lemma_lookup_remove(s.drop_last(), i, k2);
        if s.last().0@ == k2 {
            assert(s[i].0@ != k2);
        }
    }
}

/// The association list: entries in insertion order, keys unique.
#[derive(Debug)]
pub struct NameMap {
    pub entries: Vec<(String, String)>,
}

impl NameMap {
    /// The well-formedness every operation preserves: unique keys.
    pub open spec fn wf(self) -> bool {
        keys_unique(self.entries@)
    }

    /// What `key` resolves to.
    pub open spec fn spec_get(self, key: Seq<char>) -> Option<Seq<char>> {
        lookup(self.entries@, key)
    }

    /// Whether `key` resolves at all.
    pub open spec fn spec_contains(self, key: Seq<char>) -> bool {
        lookup(self.entries@, key) is Some
    }

    /// An empty map.
    pub fn new() -> (r: Self)
        ensures
            r.wf(),
            r.entries@.len() == 0,
    {
        NameMap { entries: Vec::new() }
    }

    /// How many names are stored.
    pub fn len(&self) -> (r: usize)
        ensures
            r == self.entries@.len(),
    {
        self.entries.len()
    }

    /// The entries in insertion order.
    pub fn entries_ref(&self) -> (r: &Vec<(String, String)>)
        ensures
            r == &self.entries,
    {
        &self.entries
    }

    /// The index of the entry carrying `key`, if one does.
    fn position(&self, key: &String) -> (r: Option<usize>)
        ensures
            match r {
                Some(i) => i < self.entries@.len() && self.entries@[i as int].0@ == key@,
                None => forall|i: int|
                    0 <= i < self.entries@.len() ==> self.entries@[i].0@ != key@,
            },
    {
        let n = self.entries.len();
        let mut i: usize = 0;
        while i < n
            invariant
                0 <= i <= n,
                n == self.entries@.len(),
                forall|j: int| 0 <= j < i ==> self.entries@[j].0@ != key@,
            decreases n - i,
        {
            if self.entries[i].0 == *key {
                return Some(i);
            }
            i += 1;
        }
        None
    }

    /// Whether `key` resolves.
    pub fn contains_key(&self, key: &String) -> (r: bool)
        ensures
            r == self.spec_contains(key@),
    {
        proof {
            lemma_lookup_index(self.entries@, key@);
        }
        match self.position(key) {
            Some(_) => true,
            None => false,
        }
    }

    /// The value `key` resolves to, if any.
    pub fn get(&self, key: &String) -> (r: Option<&String>)
        requires
            self.wf(),
        ensures
            match r {
                Some(v) => self.spec_get(key@) == Some(v@),
                None => self.spec_get(key@) is None,
            },
    {
        proof {
            lemma_lookup_index(self.entries@, key@);
        }
        match self.position(key) {
            Some(i) => {
                proof {
                    lemma_lookup_at(self.entries@, key@, i as int);
                }
                Some(&self.entries[i].1)
            },
            None => None,
        }
    }

    /// Stores `value` under `key`, replacing what the key resolved to before
    /// and leaving every other name unchanged.
    pub fn insert(&mut self, key: String, value: String)
        requires
            old(self).wf(),
        ensures
            final(self).wf(),
            final(self).spec_get(key@) == Some(value@),
            forall|k2: Seq<char>| k2 != key@ ==> final(self).spec_get(k2) == old(self).spec_get(k2),
            final(self).entries@.len() == old(self).entries@.len() + (if old(self).spec_contains(
                key@,
            ) {
                0int
            } else {
                1int
            }),
    {
        let ghost orig = self.entries@;
        match self.position(&key) {
            Some(i) => {
                self.entries.remove(i);
                proof {
                    assert forall|k2: Seq<char>| true implies lookup(self.entries@, k2) == (if k2
                        == key@ {
                        None::<Seq<char>>
                    } else {
                        lookup(orig, k2)
                    }) by {
                        lemma_lookup_remove(orig, i as int, k2);
                    }
                    assert(keys_unique(self.entries@)) by {
                        assert forall|a: int, b: int|
                            0 <= a < b < self.entries@.len() implies self.entries@[a].0@
                            != self.entries@[b].0@ by {
                            let aa = if a < i { a } else { a + 1 };
                            let bb = if b < i { b } else { b + 1 };
                            assert(self.entries@[a] == orig[aa] && self.entries@[b] == orig[bb]);
                        }
                    }
                    lemma_lookup_index(orig, key@);
                }
            },
            None => {
                proof {
                    lemma_lookup_index(orig, key@);
                }
            },
        }
        let ghost pre = self.entries@;
        proof {
            lemma_lookup_index(pre, key@);
            assert(lookup(pre, key@) is None);
        }
        self.entries.push((key, value));
        proof {
            assert(self.entries@.drop_last() =~= pre);
            assert(self.entries@.last().0@ == key@);
            assert forall|k2: Seq<char>| k2 != key@ implies lookup(self.entries@, k2) == lookup(
                orig,
                k2,
            ) by {
                assert(self.entries@.drop_last() =~= pre);
                assert(self.entries@.last().0@ == key@);
                assert(lookup(self.entries@, k2) == lookup(pre, k2));
                assert(lookup(pre, k2) == lookup(orig, k2));
            }
            assert(keys_unique(self.entries@)) by {
                assert forall|a: int, b: int|
                    0 <= a < b < self.entries@.len() implies self.entries@[a].0@
                    != self.entries@[b].0@ by {
                    if b == self.entries@.len() - 1 {
                        assert(self.entries@[a] == pre[a]);
                        lemma_lookup_index(pre, key@);
                    } else {
                        assert(self.entries@[a] == pre[a] && self.entries@[b] == pre[b]);
                    }
                }
            }
        }
    }
}

impl Clone for NameMap {
    fn clone(&self) -> (r: Self)
        ensures
            r.entries@ == self.entries@,
    {
        let n = self.entries.len();
        let mut out: Vec<(String, String)> = Vec::new();
        let mut i: usize = 0;
        while i < n
            invariant
                0 <= i <= n,
                n == self.entries@.len(),
                out@ =~= self.entries@.take(i as int),
            decreases n - i,
        {
            let pair = &self.entries[i];
            out.push((pair.0.clone(), pair.1.clone()));
            i += 1;
        }
        proof {
            assert(out@ =~= self.entries@);
        }
        NameMap { entries: out }
    }
}

} // verus!
