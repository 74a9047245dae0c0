//! A map from string keys to values, kept as a list of entries in which no
//! key occurs twice.

use vstd::prelude::*;

verus! {

/// No key occurs in two entries.
pub open spec fn keys_unique<V>(s: Seq<(String, V)>) -> bool {
    forall|i: int, j: int| 0 <= i < j < s.len() ==> #[trigger] s[i].0@ != #[trigger] s[j].0@
}

/// The map that a list of entries denotes, each key taken by its view and
/// each value by its view; a later entry wins over an earlier one.
pub open spec fn entries_to_map<V: View>(s: Seq<(String, V)>) -> Map<Seq<char>, V::V>
    decreases s.len(),
{
    if s.len() == 0 {
        Map::empty()
    } else {
        entries_to_map(s.drop_last()).insert(s.last().0@, s.last().1@)
    }
}

proof fn lemma_entries_dom<V: View>(s: Seq<(String, V)>, k: Seq<char>)
    ensures
        entries_to_map(s).dom().contains(k) <==> exists|i: int|
            0 <= i < s.len() && #[trigger] s[i].0@ == k,
    decreases s.len(),
{
    if s.len() > 0 {
        lemma_entries_dom(s.drop_last(), k);
        if entries_to_map(s.drop_last()).dom().contains(k) {
            let i = choose|i: int| 0 <= i < s.drop_last().len() && #[trigger] s.drop_last()[i].0@ == k;
            assert(s[i].0@ == k);
        }
        if exists|i: int| 0 <= i < s.len() && #[trigger] s[i].0@ == k {
            let i = choose|i: int| 0 <= i < s.len() && #[trigger] s[i].0@ == k;
            if i < s.len() - 1 {
                assert(s.drop_last()[i].0@ == k);
            }
        }
    }
}

proof fn lemma_entries_len<V: View>(s: Seq<(String, V)>)
    requires
        keys_unique(s),
    ensures
        entries_to_map(s).dom().finite(),
        entries_to_map(s).dom().len() == s.len(),
    decreases s.len(),
{
    if s.len() > 0 {
        let t = s.drop_last();
        assert(keys_unique(t)) by {
            assert forall|a: int, b: int| 0 <= a < b < t.len() implies #[trigger] t[a].0@
                != #[trigger] t[b].0@ by {
                assert(t[a] == s[a] && t[b] == s[b]);
            }
        }
        lemma_entries_len(t);
        lemma_entries_dom(t, s.last().0@);
        if entries_to_map(t).dom().contains(s.last().0@) {
            let i = choose|i: int| 0 <= i < t.len() && #[trigger] t[i].0@ == s.last().0@;
            assert(s[i].0@ == s[s.len() - 1].0@);
        }
    }
}

proof fn lemma_entries_lookup<V: View>(s: Seq<(String, V)>, i: int)
    requires
        keys_unique(s),
        0 <= i < s.len(),
    ensures
        entries_to_map(s).dom().contains(s[i].0@),
        entries_to_map(s)[s[i].0@] == s[i].1@,
    decreases s.len(),
{
    if i < s.len() - 1 {
        let t = s.drop_last();
        assert(t[i] == s[i]);
        assert(keys_unique(t)) by {
            assert forall|a: int, b: int| 0 <= a < b < t.len() implies #[trigger] t[a].0@
                != #[trigger] t[b].0@ by {
                assert(t[a] == s[a] && t[b] == s[b]);
            }
        }
        lemma_entries_lookup(t, i);
        assert(s[i].0@ != s[s.len() - 1].0@);
    }
}

proof fn lemma_entries_update<V: View>(s: Seq<(String, V)>, i: int, key: String, value: V)
    requires
        keys_unique(s),
        0 <= i < s.len(),
        s[i].0@ == key@,
    ensures
        entries_to_map(s.update(i, (key, value))) =~= entries_to_map(s).insert(key@, value@),
        keys_unique(s.update(i, (key, value))),
    decreases s.len(),
{
    let u = s.update(i, (key, value));
    let t = s.drop_last();
    assert(keys_unique(u)) by {
        assert forall|a: int, b: int| 0 <= a < b < u.len() implies #[trigger] u[a].0@
            != #[trigger] u[b].0@ by {
            assert(u[a].0@ == s[a].0@ && u[b].0@ == s[b].0@);
        }
    }
    if i == s.len() - 1 {
        assert(u.drop_last() =~= t);
    } else {
        assert(keys_unique(t)) by {
            assert forall|a: int, b: int| 0 <= a < b < t.len() implies #[trigger] t[a].0@
                != #[trigger] t[b].0@ by {
                assert(t[a] == s[a] && t[b] == s[b]);
            }
        }
        lemma_entries_update(t, i, key, value);
        assert(u.drop_last() =~= t.update(i, (key, value)));
        assert(s[i].0@ != s[s.len() - 1].0@);
    }
}

proof fn lemma_entries_same_views<V: View>(s: Seq<(String, V)>, t: Seq<(String, V)>)
    requires
        s.len() == t.len(),
        forall|i: int| 0 <= i < s.len() ==> (#[trigger] s[i]).0@ == t[i].0@ && s[i].1@ == t[i].1@,
    ensures
        entries_to_map(s) == entries_to_map(t),
    decreases s.len(),
{
    if s.len() > 0 {
        let (a, b) = (s.drop_last(), t.drop_last());
        assert forall|i: int| 0 <= i < a.len() implies (#[trigger] a[i]).0@ == b[i].0@ && a[i].1@
            == b[i].1@ by {
            assert(a[i] == s[i] && b[i] == t[i]);
        }
        lemma_entries_same_views(a, b);
        assert(s[s.len() - 1].0@ == t[t.len() - 1].0@);
    }
}

/// A map from string keys to values, whose entries keep the order in which
/// their keys were first inserted.
#[derive(Debug)]
pub struct KeyMap<V: View> {
    entries: Vec<(String, V)>,
}

impl<V: View> View for KeyMap<V> {
    type V = Map<Seq<char>, V::V>;

    closed spec fn view(&self) -> Map<Seq<char>, V::V> {
        entries_to_map(self.entries@)
    }
}

impl<V: View> KeyMap<V> {
    #[verifier::type_invariant]
    closed spec fn inv(self) -> bool {
        keys_unique(self.entries@)
    }

    /// The entries, in the order in which their keys were first inserted.
    pub closed spec fn entries_view(self) -> Seq<(String, V)> {
        self.entries@
    }

    /// The map with no entry.
    pub fn new() -> (m: Self)
        ensures
            m@ == Map::<Seq<char>, V::V>::empty(),
            m.entries_view().len() == 0,
    {
        KeyMap { entries: Vec::new() }
    }

    /// The number of keys.
    pub fn len(&self) -> (n: usize)
        ensures
            n == self@.dom().len(),
    {
        proof {
            use_type_invariant(self);
            self.lemma_len();
        }
        self.entries.len()
    }

    proof fn lemma_len(&self)
        requires
            keys_unique(self.entries@),
        ensures
            self@.dom().len() == self.entries@.len(),
            self@.dom().finite(),
    {
        lemma_entries_len(self.entries@);
    }

    /// The value of `key`, if it has one.
    pub fn get(&self, key: &String) -> (r: Option<&V>)
        ensures
            r is Some <==> self@.contains_key(key@),
            r matches Some(v) ==> v@ == self@[key@],
    {
        proof {
            use_type_invariant(self);
        }
        let n: usize = self.entries.len();
        let mut i: usize = 0;
        while i < n
            invariant
                n == self.entries@.len(),
                keys_unique(self.entries@),
                i <= n,
                forall|j: int| 0 <= j < i ==> (#[trigger] self.entries@[j]).0@ != key@,
            decreases n - i,
        {
            if self.entries[i].0 == *key {
                proof {
                    lemma_entries_lookup(self.entries@, i as int);
                }
                return Some(&self.entries[i].1);
            }
            i = i + 1;
        }
        proof {
            lemma_entries_dom(self.entries@, key@);
        }
        None
    }

    /// The entries, in the order in which their keys were first inserted;
    /// no key occurs twice among them.
    pub fn entries(&self) -> (r: &Vec<(String, V)>)
        ensures
            r@ == self.entries_view(),
            keys_unique(r@),
            entries_to_map(r@) == self@,
    {
        proof {
            use_type_invariant(self);
        }
        &self.entries
    }

    /// The entries, taken out of the map, in the order in which their keys
    /// were first inserted; no key occurs twice among them.
    pub fn into_entries(self) -> (r: Vec<(String, V)>)
        ensures
            r@ == self.entries_view(),
            keys_unique(r@),
            entries_to_map(r@) == self@,
    {
        proof {
            use_type_invariant(&self);
        }
        self.entries
    }

    /// Sets the value of `key`, in place of the value it had if it had one.
    pub fn insert(&mut self, key: String, value: V)
        ensures
            final(self)@ == old(self)@.insert(key@, value@),
            old(self)@.contains_key(key@) ==> exists|i: int|
                0 <= i < old(self).entries_view().len() && (#[trigger] old(
                    self,
                ).entries_view()[i]).0@ == key@ && final(self).entries_view() == old(
                    self,
                ).entries_view().update(i, (key, value)),
            !old(self)@.contains_key(key@) ==> final(self).entries_view() == old(
                self,
            ).entries_view().push((key, value)),
    {
        proof {
            use_type_invariant(&*self);
        }
        let mut entries: Vec<(String, V)> = Vec::new();
        std::mem::swap(&mut entries, &mut self.entries);
        let ghost s = entries@;
        let n: usize = entries.len();
        let mut i: usize = 0;
        while i < n
            invariant
                n == entries.len(),
                entries@ == s,
                s == old(self).entries_view(),
                keys_unique(s),
                entries_to_map(s) == old(self)@,
                i <= n,
                forall|j: int| 0 <= j < i ==> (#[trigger] s[j]).0@ != key@,
            decreases n - i,
        {
            if entries[i].0 == key {
                proof {
                    lemma_entries_update(s, i as int, key, value);
                    lemma_entries_dom(s, key@);
                    assert(s[i as int].0@ == key@);
                }
                entries.set(i, (key, value));
                self.entries = entries;
                return;
            }
            i = i + 1;
        }
        proof {
            lemma_entries_dom(s, key@);
            let t = s.push((key, value));
            assert(t.drop_last() =~= s);
            assert(keys_unique(t)) by {
                assert forall|a: int, b: int| 0 <= a < b < t.len() implies #[trigger] t[a].0@
                    != #[trigger] t[b].0@ by {
                    if b == s.len() {
                        assert(t[a] == s[a]);
                    } else {
                        assert(t[a] == s[a] && t[b] == s[b]);
                    }
                }
            }
        }
        entries.push((key, value));
        self.entries = entries;
    }
}

impl<V: View + Clone> Clone for KeyMap<V> {
    /// A copy with the same keys, each value cloned; where cloning a value
    /// keeps its view, the copy has the same view.
    fn clone(&self) -> (r: Self)
        ensures
            r.entries_view().len() == self.entries_view().len(),
            forall|i: int|
                0 <= i < self.entries_view().len() ==> (#[trigger] r.entries_view()[i]).0@
                    == self.entries_view()[i].0@ && cloned::<V>(
                    self.entries_view()[i].1,
                    r.entries_view()[i].1,
                ),
            (forall|v: V, w: V| #[trigger] cloned::<V>(v, w) ==> w@ == v@) ==> r@ == self@,
    {
        proof {
            use_type_invariant(self);
        }
        let ghost s = self.entries@;
        let mut entries: Vec<(String, V)> = Vec::new();
        let n: usize = self.entries.len();
        let mut i: usize = 0;
        while i < n
            invariant
                n == s.len(),
                s == self.entries@,
                i <= n,
                entries@.len() == i,
                forall|j: int|
                    0 <= j < i ==> (#[trigger] entries@[j]).0@ == s[j].0@ && cloned::<V>(
                        s[j].1,
                        entries@[j].1,
                    ),
            decreases n - i,
        {
            let key = self.entries[i].0.clone();
            let value = self.entries[i].1.clone();
            entries.push((key, value));
            i = i + 1;
        }
        proof {
            let t = entries@;
            assert(keys_unique(t)) by {
                assert forall|a: int, b: int| 0 <= a < b < t.len() implies #[trigger] t[a].0@
                    != #[trigger] t[b].0@ by {
                    assert(t[a].0@ == s[a].0@ && t[b].0@ == s[b].0@);
                }
            }
            if forall|v: V, w: V| #[trigger] cloned::<V>(v, w) ==> w@ == v@ {
                assert forall|j: int| 0 <= j < s.len() implies (#[trigger] s[j]).0@ == t[j].0@
                    && s[j].1@ == t[j].1@ by {
                    assert(cloned::<V>(s[j].1, t[j].1));
                }
                lemma_entries_same_views(s, t);
            }
        }
        KeyMap { entries }
    }
}

} // verus!
