//! A string-keyed association map with a mathematical `Map` view, used for
//! MCP server tables, model provider tables and workflow step tables.

use vstd::prelude::*;
use vstd::pervasive::VecAdditionalExecFns;
use crate::strutil::str_eq;

verus! {

/// The map described by a sequence of entries, later entries overriding
/// earlier ones with the same key.
pub open spec fn entries_map<V: View>(s: Seq<(String, V)>) -> Map<Seq<char>, V::V>
    decreases s.len(),
{
    if s.len() == 0 {
        Map::empty()
    } else {
        entries_map(s.drop_last()).insert(s.last().0@, s.last().1@)
    }
}

/// No two entries share a key.
pub open spec fn unique_keys<V: View>(s: Seq<(String, V)>) -> bool {
    forall|i: int, j: int|
        0 <= i < j < s.len() ==> (#[trigger] s[i].0@) != (#[trigger] s[j].0@)
}

proof fn lemma_entries_map_take_step<V: View>(s: Seq<(String, V)>, n: int)
    requires
        0 <= n < s.len(),
    ensures
        entries_map(s.take(n + 1)) == entries_map(s.take(n)).insert(s[n].0@, s[n].1@),
{
    assert(s.take(n + 1).drop_last() =~= s.take(n));
    assert(s.take(n + 1).last() == s[n]);
}

/// Entries beyond `m` say nothing about a key none of them bind.
proof fn lemma_entries_map_skip_suffix<V: View>(s: Seq<(String, V)>, k: Seq<char>, m: int)
    requires
        0 <= m <= s.len(),
        forall|j: int| m <= j < s.len() ==> (#[trigger] s[j].0@) != k,
    ensures
        entries_map(s).contains_key(k) == entries_map(s.take(m)).contains_key(k),
        entries_map(s).contains_key(k) ==> entries_map(s)[k] == entries_map(s.take(m))[k],
    decreases s.len() - m,
{
    if m == s.len() {
        assert(s.take(m) =~= s);
    } else {
        lemma_entries_map_skip_suffix(s, k, m + 1);
        lemma_entries_map_take_step(s, m);
    }
}

proof fn lemma_entries_map_update<V: View>(s: Seq<(String, V)>, i: int, k: String, v: V)
    requires
        0 <= i < s.len(),
        s[i].0@ == k@,
        unique_keys(s),
    ensures
        entries_map(s.update(i, (k, v))) == entries_map(s).insert(k@, v@),
    decreases s.len(),
{
    let t = s.update(i, (k, v));
    if i == s.len() - 1 {
        assert(t.drop_last() =~= s.drop_last());
        assert(t.last() == (k, v));
    } else {
        assert(t.drop_last() =~= s.drop_last().update(i, (k, v)));
        assert(unique_keys(s.drop_last()));
        lemma_entries_map_update(s.drop_last(), i, k, v);
        assert(t.last() == s.last());
        // The final entry's key differs from k, so the two inserts commute.
        assert(s.last().0@ != k@);
        assert(entries_map(s.drop_last()).insert(k@, v@).insert(s.last().0@, s.last().1@)
            =~= entries_map(s.drop_last()).insert(s.last().0@, s.last().1@).insert(k@, v@));
    }
}

/// Association map from strings to values. Keys are unique; the view is a
/// mathematical map over the keys' character sequences.
#[derive(Clone, Debug)]
pub struct StrMap<V: View> {
    entries: Vec<(String, V)>,
}

impl<V: View> View for StrMap<V> {
    type V = Map<Seq<char>, V::V>;

    closed spec fn view(&self) -> Map<Seq<char>, V::V> {
        entries_map(self.entries@)
    }
}

impl<V: View> StrMap<V> {
    /// Well-formed: no two entries share a key. Constructors establish this
    /// and every method preserves it.
    pub closed spec fn wf(&self) -> bool {
        unique_keys(self.entries@)
    }

    pub fn new() -> (r: Self)
        ensures
            r@ == Map::<Seq<char>, V::V>::empty(),
            r.wf(),
    {
        StrMap { entries: Vec::new() }
    }

    /// Index of the entry for `k`, if any.
    fn find(&self, k: &str) -> (r: Option<usize>)
        ensures
            match r {
                Some(i) => i < self.entries@.len() && self.entries@[i as int].0@ == k@,
                None => forall|j: int|
                    0 <= j < self.entries@.len() ==> (#[trigger] self.entries@[j].0@) != k@,
            },
    {
        let n = self.entries.len();
        let mut i: usize = 0;
        while i < n
            invariant
                i <= n,
                n == self.entries@.len(),
                forall|j: int| 0 <= j < i ==> (#[trigger] self.entries@[j].0@) != k@,
            decreases n - i,
        {
            if str_eq(self.entries[i].0.as_str(), k) {
                return Some(i);
            }
            i = i + 1;
        }
        None
    }

    pub fn contains_key(&self, k: &str) -> (r: bool)
        requires
            self.wf(),
        ensures
            r == self@.contains_key(k@),
    {
        let found = self.find(k);
        proof {
            if let Some(i) = found {
                lemma_value_of_entry(self.entries@, i as int);
            } else {
                lemma_entries_map_skip_suffix(self.entries@, k@, 0);
                assert(self.entries@.take(0) =~= Seq::<(String, V)>::empty());
            }
        }
        found.is_some()
    }

    pub fn get<'a>(&'a self, k: &str) -> (r: Option<&'a V>)
        requires
            self.wf(),
        ensures
            match r {
                Some(v) => self@.contains_key(k@) && v@ == self@[k@],
                None => !self@.contains_key(k@),
            },
    {
        let found = self.find(k);
        match found {
            Some(i) => {
                proof {
                    lemma_value_of_entry(self.entries@, i as int);
                }
                Some(&self.entries[i].1)
            },
            None => {
                proof {
                    lemma_entries_map_skip_suffix(self.entries@, k@, 0);
                    assert(self.entries@.take(0) =~= Seq::<(String, V)>::empty());
                }
                None
            },
        }
    }

    /// Insert or replace the binding for `k`.
    pub fn insert(&mut self, k: String, v: V)
        requires
            old(self).wf(),
        ensures
            final(self)@ == old(self)@.insert(k@, v@),
            final(self).wf(),
    {
        let found = self.find(k.as_str());
        match found {
            Some(i) => {
                proof {
                    lemma_entries_map_update(self.entries@, i as int, k, v);
                }
                let ghost before = self.entries@;
                self.entries.set(i, (k, v));
                proof {
                    assert forall|a: int, b: int|
                        0 <= a < b < self.entries@.len() implies (#[trigger] self.entries@[a].0@)
                        != (#[trigger] self.entries@[b].0@) by {
                        assert(before[a].0@ != before[b].0@);
                    }
                }
            },
            None => {
                self.entries.push((k, v));
                proof {
                    assert(self.entries@.drop_last() =~= old(self).entries@);
                    assert(self.entries@.last() == (k, v));
                    assert forall|a: int, b: int|
                        0 <= a < b < self.entries@.len() implies (#[trigger] self.entries@[a].0@)
                        != (#[trigger] self.entries@[b].0@) by {
                        if b == self.entries@.len() - 1 {
                            assert(old(self).entries@[a].0@ != k@);
                        } else {
                            assert(old(self).entries@[a].0@ != old(self).entries@[b].0@);
                        }
                    }
                }
            },
        }
    }

    /// Insert only when `k` is not yet bound.
    pub fn insert_if_absent(&mut self, k: String, v: V)
        requires
            old(self).wf(),
        ensures
            final(self)@ == if old(self)@.contains_key(k@) {
                old(self)@
            } else {
                old(self)@.insert(k@, v@)
            },
            final(self).wf(),
    {
        if !self.contains_key(k.as_str()) {
            self.insert(k, v);
        }
    }

    /// Add every entry of `other`, overriding bindings already present.
    pub fn extend_override(&mut self, other: StrMap<V>)
        requires
            old(self).wf(),
        ensures
            final(self)@ == old(self)@.union_prefer_right(other@),
            final(self).wf(),
    {
        let ghost orig = other.entries@;
        let mut rest = other.entries;
        let ghost n = orig.len() as int;
        let total: usize = rest.len();
        proof {
            assert(n == total as int);
        }
        let mut t: usize = 0;
        proof {
            assert(orig.take(0) =~= Seq::<(String, V)>::empty());
            assert(self@.union_prefer_right(entries_map(orig.take(0))) =~= self@);
        }
        while rest.len() > 0
            invariant
                self.wf(),
                n == orig.len(),
                n == total as int,
                t <= n,
                rest@ =~= orig.skip(t as int),
                self@ == old(self)@.union_prefer_right(entries_map(orig.take(t as int))),
            decreases rest@.len(),
        {
            proof {
                assert(orig.skip(t as int).len() > 0);
                assert(t < n);
            }
            let (k, v) = rest.remove(0);
            proof {
                assert(orig.skip(t as int)[0] == orig[t as int]);
                assert((k, v) == orig[t as int]);
                assert(rest@ =~= orig.skip(t as int + 1));
                lemma_entries_map_take_step(orig, t as int);
                assert(old(self)@.union_prefer_right(entries_map(orig.take(t as int))).insert(
                    k@,
                    v@,
                ) =~= old(self)@.union_prefer_right(entries_map(orig.take(t as int + 1))));
            }
            self.insert(k, v);
            t = t + 1;
        }
        proof {
            assert(orig.take(n) =~= orig);
        }
    }

    /// Add every entry of `other` whose key is not yet bound: existing
    /// bindings win.
    pub fn extend_keep(&mut self, other: StrMap<V>)
        requires
            old(self).wf(),
            other.wf(),
        ensures
            final(self)@ == other@.union_prefer_right(old(self)@),
            final(self).wf(),
    {
        let ghost orig = other.entries@;
        let mut rest = other.entries;
        let ghost n = orig.len() as int;
        let total: usize = rest.len();
        proof {
            assert(n == total as int);
        }
        let mut t: usize = 0;
        proof {
            assert(orig.take(0) =~= Seq::<(String, V)>::empty());
            assert(entries_map(orig.take(0)).union_prefer_right(old(self)@) =~= self@);
        }
        while rest.len() > 0
            invariant
                self.wf(),
                n == orig.len(),
                n == total as int,
                t <= n,
                unique_keys(orig),
                rest@ =~= orig.skip(t as int),
                self@ == entries_map(orig.take(t as int)).union_prefer_right(old(self)@),
            decreases rest@.len(),
        {
            proof {
                assert(orig.skip(t as int).len() > 0);
                assert(t < n);
            }
            let (k, v) = rest.remove(0);
            proof {
                assert(orig.skip(t as int)[0] == orig[t as int]);
                assert((k, v) == orig[t as int]);
                assert(rest@ =~= orig.skip(t as int + 1));
                lemma_entries_map_take_step(orig, t as int);
                // k occurs only once in orig, so it is not bound by the prefix.
                assert(forall|j: int| 0 <= j < t ==> (#[trigger] orig[j].0@) != k@);
                assert(forall|j: int|
                    0 <= j < orig.take(t as int).len() ==> (#[trigger] orig.take(t as int)[j].0@)
                        != k@);
                lemma_entries_map_skip_suffix(orig.take(t as int), k@, 0);
                assert(orig.take(t as int).take(0) =~= Seq::<(String, V)>::empty());
                assert(!entries_map(orig.take(t as int)).contains_key(k@));
            }
            let ghost before = self@;
            self.insert_if_absent(k, v);
            proof {
                assert(entries_map(orig.take(t as int + 1)).union_prefer_right(old(self)@)
                    =~= self@);
            }
            t = t + 1;
        }
        proof {
            assert(orig.take(n) =~= orig);
        }
    }

    /// Number of stored entries (and of keys, since keys are unique).
    pub closed spec fn spec_num_entries(&self) -> nat {
        self.entries@.len()
    }

    pub fn num_entries(&self) -> (r: usize)
        ensures
            r == self.spec_num_entries(),
    {
        self.entries.len()
    }

    /// Key of the entry at a position.
    pub closed spec fn spec_key_at(&self, i: int) -> Seq<char> {
        self.entries@[i].0@
    }

    /// Value of the entry at a position.
    pub closed spec fn spec_val_at(&self, i: int) -> V::V {
        self.entries@[i].1@
    }

    /// The entry at a position, for walking the map's contents.
    pub fn entry_at(&self, i: usize) -> (r: (&String, &V))
        requires
            self.wf(),
            i < self.spec_num_entries(),
        ensures
            r.0@ == self.spec_key_at(i as int),
            r.1@ == self.spec_val_at(i as int),
            self@.contains_key(r.0@),
            self@[r.0@] == r.1@,
    {
        proof {
            lemma_value_of_entry(self.entries@, i as int);
        }
        (&self.entries[i].0, &self.entries[i].1)
    }

    /// Every key of the map is the key of some entry.
    pub proof fn lemma_dom_witness(&self)
        ensures
            forall|k: Seq<char>|
                self@.contains_key(k) ==> exists|i: int|
                    0 <= i < self.spec_num_entries() && #[trigger] self.spec_key_at(i) == k,
    {
        assert forall|k: Seq<char>| self@.contains_key(k) implies exists|i: int|
            0 <= i < self.spec_num_entries() && #[trigger] self.spec_key_at(i) == k by {
            lemma_entries_map_dom(self.entries@, k);
            let i = choose|i: int|
                0 <= i < self.entries@.len() && (#[trigger] self.entries@[i].0@) == k;
            assert(self.spec_key_at(i) == k);
        }
    }
}

/// A key bound by the described map is the key of some entry.
proof fn lemma_entries_map_dom<V: View>(s: Seq<(String, V)>, k: Seq<char>)
    requires
        entries_map(s).contains_key(k),
    ensures
        exists|i: int| 0 <= i < s.len() && (#[trigger] s[i].0@) == k,
    decreases s.len(),
{
    if s.len() > 0 {
        if s.last().0@ == k {
            assert(s[s.len() - 1].0@ == k);
        } else {
            lemma_entries_map_dom(s.drop_last(), k);
            let i = choose|i: int|
                0 <= i < s.drop_last().len() && (#[trigger] s.drop_last()[i].0@) == k;
            assert(s[i].0@ == k);
        }
    }
}

/// An entry whose key does not reappear later binds that key in the map.
proof fn lemma_contains_of_entry<V: View>(s: Seq<(String, V)>, i: int)
    requires
        0 <= i < s.len(),
        forall|j: int| i < j < s.len() ==> (#[trigger] s[j].0@) != s[i].0@,
    ensures
        entries_map(s).contains_key(s[i].0@),
        entries_map(s)[s[i].0@] == s[i].1@,
{
    lemma_entries_map_skip_suffix(s, s[i].0@, i + 1);
    lemma_entries_map_take_step(s, i);
}

/// With unique keys, each entry's value is the map's value for its key.
proof fn lemma_value_of_entry<V: View>(s: Seq<(String, V)>, i: int)
    requires
        0 <= i < s.len(),
        unique_keys(s),
    ensures
        entries_map(s).contains_key(s[i].0@),
        entries_map(s)[s[i].0@] == s[i].1@,
{
    lemma_contains_of_entry(s, i);
}

} // verus!
