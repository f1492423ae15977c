//! A map from strings to values, kept as a list of entries with distinct keys.

use vstd::prelude::*;
use vstd::string::StringExecFns;

verus! {

/// Whether no two entries have the same key.
pub open spec fn keys_distinct<V>(s: Seq<(String, V)>) -> bool {
    forall|i: int, j: int| 0 <= i < j < s.len() ==> (#[trigger] s[i]).0@ != (#[trigger] s[j]).0@
}

/// The map that the entries describe; a later entry wins over an earlier one.
pub open spec fn entries_map<V>(s: Seq<(String, V)>) -> Map<Seq<char>, V>
    decreases s.len(),
{
    if s.len() == 0 {
        Map::empty()
    } else {
        entries_map(s.drop_last()).insert(s.last().0@, s.last().1)
    }
}

/// The key `k` is in the map of `s` exactly when an entry of `s` has it, and
/// then its value is that entry's, provided that the keys are distinct.
proof fn lemma_entries_map<V>(s: Seq<(String, V)>, k: Seq<char>)
    requires
        keys_distinct(s),
    ensures
        entries_map(s).contains_key(k) <==> exists|i: int| 0 <= i < s.len() && (#[trigger] s[i]).0@ == k,
        forall|i: int| 0 <= i < s.len() && (#[trigger] s[i]).0@ == k ==> entries_map(s)[k] == s[i].1,
        entries_map(s).dom().finite(),
        entries_map(s).len() == s.len(),
    decreases s.len(),
{
    if s.len() > 0 {
        let p = s.drop_last();
        assert(keys_distinct(p)) by {
            assert forall|i: int, j: int| 0 <= i < j < p.len() implies (#[trigger] p[i]).0@ != (
            #[trigger] p[j]).0@ by {
                assert(p[i] == s[i] && p[j] == s[j]);
            }
        }
        lemma_entries_map(p, k);
        lemma_entries_map(p, s.last().0@);
        assert forall|i: int| 0 <= i < p.len() implies (#[trigger] p[i]).0@ != s.last().0@ by {
            assert(p[i] == s[i]);
            assert(s[i].0@ != s[s.len() - 1].0@);
        }
        if exists|i: int| 0 <= i < s.len() && (#[trigger] s[i]).0@ == k {
            let i = choose|i: int| 0 <= i < s.len() && (#[trigger] s[i]).0@ == k;
            if i < s.len() - 1 {
                assert(p[i] == s[i]);
            }
        }
        assert forall|i: int| 0 <= i < s.len() && (#[trigger] s[i]).0@ == k implies entries_map(
            s,
        )[k] == s[i].1 by {
            if i < s.len() - 1 {
                assert(p[i] == s[i]);
            }
        }
        if exists|i: int| 0 <= i < p.len() && (#[trigger] p[i]).0@ == k {
            let i = choose|i: int| 0 <= i < p.len() && (#[trigger] p[i]).0@ == k;
            assert(p[i] == s[i]);
        }
    }
}

/// A map from strings to values.
///
/// It is not std's `HashMap<String, V>`: vstd's specification of `HashMap`
/// holds only for key types that vstd grants its key model, the primitive
/// types and boxes of them, and `String` is not among them, so nothing could
/// be proved of what such a map holds. The entries are kept in a `Vec` instead,
/// with the invariant that no key occurs twice.
#[derive(Debug)]
pub struct StrMap<V> {
    entries: Vec<(String, V)>,
}

impl<V> StrMap<V> {
    /// The map.
    pub closed spec fn view(&self) -> Map<Seq<char>, V> {
        entries_map(self.entries@)
    }

    /// The entries have distinct keys.
    #[verifier::type_invariant]
    spec fn wf(&self) -> bool {
        keys_distinct(self.entries@)
    }

    /// The entries, in the order they were inserted.
    pub closed spec fn entry_seq(&self) -> Seq<(String, V)> {
        self.entries@
    }

    /// The empty map.
    pub fn new() -> (r: Self)
        ensures
            r@ == Map::<Seq<char>, V>::empty(),
    {
        StrMap { entries: Vec::new() }
    }

    /// The number of keys.
    pub fn len(&self) -> (r: usize)
        ensures
            r == self@.len(),
    {
        proof {
            use_type_invariant(self);
            lemma_entries_map(self.entries@, Seq::empty());
        }
        self.entries.len()
    }

    /// The entries, in the order they were inserted.
    pub fn entries(&self) -> (r: &[(String, V)])
        ensures
            r@ == self.entry_seq(),
    {
        self.entries.as_slice()
    }

    /// The position of the entry with key `key`, if there is one.
    fn position(&self, key: &str) -> (r: Option<usize>)
        ensures
            match r {
                Some(i) => i < self.entries@.len() && self.entries@[i as int].0@ == key@,
                None => forall|i: int| 0 <= i < self.entries@.len() ==> (#[trigger] self.entries@[i]).0@ != key@,
            },
    {
        let k = String::from_str(key);
        let mut i: usize = 0;
        while i < self.entries.len()
            invariant
                i <= self.entries@.len(),
                k@ == key@,
                forall|j: int| 0 <= j < i ==> (#[trigger] self.entries@[j]).0@ != key@,
            decreases self.entries.len() - i,
        {
            if self.entries[i].0 == k {
                return Some(i);
            }
            i += 1;
        }
        None
    }

    /// The value of the key `key`, if it is in the map.
    pub fn get(&self, key: &str) -> (r: Option<&V>)
        ensures
            match r {
                Some(v) => self@.contains_key(key@) && *v == self@[key@],
                None => !self@.contains_key(key@),
            },
    {
        proof {
            use_type_invariant(self);
            lemma_entries_map(self.entries@, key@);
        }
        match self.position(key) {
            Some(i) => Some(&self.entries[i].1),
            None => None,
        }
    }

    /// Sets the value of the key `key` to `value`.
    pub fn insert(&mut self, key: String, value: V)
        ensures
            final(self)@ == old(self)@.insert(key@, value),
    {
        let ghost old_entries = self.entries@;
        proof {
            use_type_invariant(&*self);
            lemma_entries_map(old_entries, key@);
        }
        let pos = self.position(key.as_str());
        let mut taken = StrMap { entries: Vec::new() };
        std::mem::swap(&mut taken, self);
        let StrMap { mut entries } = taken;
        assert(entries@ == old_entries);
        match pos {
            Some(i) => {
                let ghost k = key@;
                entries.set(i, (key, value));
                proof {
                    let s = entries@;
                    assert(keys_distinct(s)) by {
                        assert forall|a: int, b: int| 0 <= a < b < s.len() implies (#[trigger] s[a]).0@
                            != (#[trigger] s[b]).0@ by {
                            if a != i && b != i {
                                assert(s[a] == old_entries[a] && s[b] == old_entries[b]);
                            } else if a == i {
                                assert(s[b] == old_entries[b]);
                                assert(old_entries[a].0@ != old_entries[b].0@);
                            } else {
                                assert(s[a] == old_entries[a]);
                                assert(old_entries[a].0@ != old_entries[b].0@);
                            }
                        }
                    }
                    let m = old(self)@.insert(k, value);
                    let n = entries_map(s);
                    assert forall|x: Seq<char>| #[trigger] n.contains_key(x) == m.contains_key(x)
                        && (n.contains_key(x) ==> n[x] == m[x]) by {
                        lemma_entries_map(s, x);
                        lemma_entries_map(old_entries, x);
                        if x != k {
                            if exists|j: int| 0 <= j < old_entries.len() && (#[trigger] old_entries[j]).0@ == x {
                                let j = choose|j: int| 0 <= j < old_entries.len() && (#[trigger] old_entries[j]).0@ == x;
                                assert(j != i);
                                assert(s[j] == old_entries[j]);
                            }
                            if exists|j: int| 0 <= j < s.len() && (#[trigger] s[j]).0@ == x {
                                let j = choose|j: int| 0 <= j < s.len() && (#[trigger] s[j]).0@ == x;
                                assert(j != i);
                                assert(s[j] == old_entries[j]);
                            }
                        } else {
                            assert(s[i as int].0@ == k);
                            assert(s[i as int].1 == value);
                        }
                    }
                    assert(n.dom() =~= m.dom());
                    assert(n =~= m);
                }
            },
            None => {
                entries.push((key, value));
                proof {
                    let s = entries@;
                    assert(s.drop_last() =~= old_entries);
                    assert(keys_distinct(s)) by {
                        assert forall|a: int, b: int| 0 <= a < b < s.len() implies (#[trigger] s[a]).0@
                            != (#[trigger] s[b]).0@ by {
                            if b < s.len() - 1 {
                                assert(s[a] == old_entries[a] && s[b] == old_entries[b]);
                            } else {
                                assert(s[a] == old_entries[a]);
                            }
                        }
                    }
                }
            },
        }
        *self = StrMap { entries };
    }
}

} // verus!
