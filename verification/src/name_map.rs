//! A map from names to values that remembers the order in which the names
//! first came, so that walking it gives the same result on every run.

use vstd::prelude::*;
use crate::text::owned;

verus! {

/// Index of the first entry of `s` named `name`, or `s.len()` when there is
/// none.
pub open spec fn index_of<T>(s: Seq<(Seq<char>, T)>, name: Seq<char>) -> int
    decreases s.len(),
{
    if s.len() == 0 {
        0
    } else if s[0].0 == name {
        0
    } else {
        1 + index_of(s.drop_first(), name)
    }
}

/// Whether an entry of `s` is named `name`.
pub open spec fn has_name<T>(s: Seq<(Seq<char>, T)>, name: Seq<char>) -> bool {
    index_of(s, name) < s.len()
}

/// The value of the first entry of `s` named `name`.
pub open spec fn lookup<T>(s: Seq<(Seq<char>, T)>, name: Seq<char>) -> Option<T> {
    if has_name(s, name) {
        Some(s[index_of(s, name)].1)
    } else {
        None
    }
}

/// `s` with `name` bound to `value`: in place where `name` was bound, at the
/// end where it was not.
pub open spec fn upsert<T>(s: Seq<(Seq<char>, T)>, name: Seq<char>, value: T) -> Seq<
    (Seq<char>, T),
> {
    if has_name(s, name) {
        s.update(index_of(s, name), (name, value))
    } else {
        s.push((name, value))
    }
}

/// Whether no two entries of `s` share a name.
pub open spec fn distinct_names<T>(s: Seq<(Seq<char>, T)>) -> bool {
    forall|i: int, j: int| 0 <= i < j < s.len() ==> (#[trigger] s[i]).0 != (#[trigger] s[j]).0
}

/// `index_of` is the least position whose entry is named `name`.
pub proof fn lemma_index_of<T>(s: Seq<(Seq<char>, T)>, name: Seq<char>)
    ensures
        0 <= index_of(s, name) <= s.len(),
        has_name(s, name) ==> s[index_of(s, name)].0 == name,
        forall|i: int| 0 <= i < index_of(s, name) ==> (#[trigger] s[i]).0 != name,
    decreases s.len(),
{
    if s.len() == 0 {
    } else if s[0].0 == name {
    } else {
        let t = s.drop_first();
        lemma_index_of(t, name);
        assert forall|i: int| 0 <= i < index_of(s, name) implies (#[trigger] s[i]).0 != name by {
            if i > 0 {
                assert(s[i] == t[i - 1]);
            }
        }
        if has_name(s, name) {
            assert(s[index_of(s, name)] == t[index_of(t, name)]);
        }
    }
}

/// A position whose entry is named `name`, with no such entry before it, is
/// `index_of`.
pub proof fn lemma_index_of_is<T>(s: Seq<(Seq<char>, T)>, name: Seq<char>, n: int)
    requires
        0 <= n <= s.len(),
        n < s.len() ==> s[n].0 == name,
        forall|i: int| 0 <= i < n ==> (#[trigger] s[i]).0 != name,
    ensures
        index_of(s, name) == n,
{
    lemma_index_of(s, name);
    let m = index_of(s, name);
    if m < n {
        assert(s[m].0 != name);
    } else if n < m {
        assert(s[n].0 != name);
    }
}

/// Binding a name keeps the names distinct, and is seen by `lookup`: the
/// bound name gives the new value, every other name what it gave before.
pub proof fn lemma_upsert<T>(s: Seq<(Seq<char>, T)>, name: Seq<char>, value: T)
    requires
        distinct_names(s),
    ensures
        distinct_names(upsert(s, name, value)),
        lookup(upsert(s, name, value), name) == Some(value),
        forall|other: Seq<char>|
            other != name ==> lookup(upsert(s, name, value), other) == lookup(s, other),
        upsert(s, name, value).len() == if has_name(s, name) {
            s.len()
        } else {
            s.len() + 1
        },
{
    let u = upsert(s, name, value);
    let k = index_of(s, name);
    lemma_index_of(s, name);
    lemma_index_of_is(u, name, k);
    assert forall|other: Seq<char>| other != name implies lookup(u, other) == lookup(
        s,
        other,
    ) by {
        lemma_index_of(s, other);
        let m = index_of(s, other);
        if m < s.len() {
            assert(u[m] == s[m]);
            assert forall|i: int| 0 <= i < m implies (#[trigger] u[i]).0 != other by {
                if i != k {
                    assert(u[i] == s[i]);
                }
            }
            lemma_index_of_is(u, other, m);
        } else {
            assert forall|i: int| 0 <= i < u.len() implies (#[trigger] u[i]).0 != other by {
                if i != k {
                    assert(u[i] == s[i]);
                }
            }
            lemma_index_of_is(u, other, u.len() as int);
        }
    }
    assert forall|i: int, j: int| 0 <= i < j < u.len() implies (#[trigger] u[i]).0 != (
    #[trigger] u[j]).0 by {
        if i != k {
            assert(u[i] == s[i]);
        }
        if j != k {
            assert(u[j] == s[j]);
        }
    }
}

/// A map from names to values, in the order in which the names were first
/// bound. Its view pairs each name with the view of its value.
pub struct NameMap<T: View> {
    entries: Vec<(String, T)>,
}

impl<T: View> View for NameMap<T> {
    type V = Seq<(Seq<char>, T::V)>;

    closed spec fn view(&self) -> Seq<(Seq<char>, T::V)> {
        Seq::new(self.entries.len() as nat, |i: int| (self.entries[i].0@, self.entries[i].1@))
    }
}

impl<T: View> NameMap<T> {
    #[verifier::type_invariant]
    spec fn names_are_distinct(&self) -> bool {
        distinct_names(self@)
    }

    /// The map without entries.
    pub fn new() -> (r: Self)
        ensures
            r@ == Seq::<(Seq<char>, T::V)>::empty(),
    {
        let r = NameMap { entries: Vec::new() };
        assert(r@ == Seq::<(Seq<char>, T::V)>::empty());
        r
    }

    /// Number of names bound.
    pub fn len(&self) -> (r: usize)
        ensures
            r == self@.len(),
            distinct_names(self@),
    {
        proof {
            use_type_invariant(self);
        }
        self.entries.len()
    }

    /// Whether no name is bound.
    pub fn is_empty(&self) -> (r: bool)
        ensures
            r == (self@.len() == 0),
    {
        self.entries.len() == 0
    }

    /// Position of the entry named `name`.
    pub fn position(&self, name: &str) -> (r: Option<usize>)
        ensures
            distinct_names(self@),
            match r {
                Some(i) => i == index_of(self@, name@) && has_name(self@, name@),
                None => !has_name(self@, name@),
            },
    {
        proof {
            use_type_invariant(self);
        }
        let key = owned(name);
        let mut i: usize = 0;
        while i < self.entries.len()
            invariant
                i <= self.entries.len(),
                key@ == name@,
                distinct_names(self@),
                forall|j: int| 0 <= j < i ==> (#[trigger] self@[j]).0 != name@,
            decreases self.entries.len() - i,
        {
            if self.entries[i].0 == key {
                proof {
                    lemma_index_of_is(self@, name@, i as int);
                }
                return Some(i);
            }
            i += 1;
        }
        proof {
            lemma_index_of_is(self@, name@, self@.len() as int);
        }
        None
    }

    /// Whether `name` is bound.
    pub fn contains_key(&self, name: &str) -> (r: bool)
        ensures
            r == has_name(self@, name@),
            distinct_names(self@),
    {
        self.position(name).is_some()
    }

    /// The value that `name` is bound to.
    pub fn get(&self, name: &str) -> (r: Option<&T>)
        ensures
            distinct_names(self@),
            match r {
                Some(v) => lookup(self@, name@) == Some(v@),
                None => lookup(self@, name@).is_none(),
            },
    {
        match self.position(name) {
            Some(i) => Some(&self.entries[i].1),
            None => None,
        }
    }

    /// The name at position `i`.
    pub fn name_at(&self, i: usize) -> (r: &String)
        requires
            i < self@.len(),
        ensures
            r@ == self@[i as int].0,
    {
        &self.entries[i].0
    }

    /// The value at position `i`.
    pub fn value_at(&self, i: usize) -> (r: &T)
        requires
            i < self@.len(),
        ensures
            r@ == self@[i as int].1,
    {
        &self.entries[i].1
    }

    /// Puts `value` in place of the value at position `i`, and hands that
    /// one back.
    pub fn swap_value(&mut self, i: usize, value: T) -> (r: T)
        requires
            i < old(self)@.len(),
        ensures
            r@ == old(self)@[i as int].1,
            final(self)@ == old(self)@.update(i as int, (old(self)@[i as int].0, value@)),
            distinct_names(final(self)@),
    {
        proof {
            use_type_invariant(&*self);
        }
        let mut entries: Vec<(String, T)> = Vec::new();
        core::mem::swap(&mut self.entries, &mut entries);
        assert(old(self)@ == Seq::new(
            entries.len() as nat,
            |k: int| (entries[k].0@, entries[k].1@),
        ));
        let (name, before) = entries.remove(i);
        entries.insert(i, (name, value));
        let ghost after = Seq::new(entries.len() as nat, |k: int| (entries[k].0@, entries[k].1@));
        assert(after == old(self)@.update(i as int, (old(self)@[i as int].0, value@)));
        assert(distinct_names(after)) by {
            assert forall|a: int, b: int| 0 <= a < b < after.len() implies (#[trigger] after[a]).0
                != (#[trigger] after[b]).0 by {
                assert(after[a].0 == old(self)@[a].0);
                assert(after[b].0 == old(self)@[b].0);
            }
        }
        self.entries = entries;
        before
    }

    /// Binds `name` to `value`, in place of what it was bound to.
    pub fn insert(&mut self, name: String, value: T)
        ensures
            final(self)@ == upsert(old(self)@, name@, value@),
            distinct_names(final(self)@),
    {
        proof {
            use_type_invariant(&*self);
            lemma_upsert(self@, name@, value@);
        }
        let at = self.position(name.as_str());
        let mut entries: Vec<(String, T)> = Vec::new();
        core::mem::swap(&mut self.entries, &mut entries);
        assert(old(self)@ == Seq::new(
            entries.len() as nat,
            |i: int| (entries[i].0@, entries[i].1@),
        ));
        match at {
            Some(i) => {
                entries.set(i, (name, value));
            },
            None => {
                entries.push((name, value));
            },
        }
        assert(upsert(old(self)@, name@, value@) == Seq::new(
            entries.len() as nat,
            |i: int| (entries[i].0@, entries[i].1@),
        ));
        self.entries = entries;
    }
}


/// Pairs of texts as pairs of character sequences.
pub open spec fn pairs_view(pairs: Seq<(String, String)>) -> Seq<(Seq<char>, Seq<char>)> {
    pairs.map_values(|p: (String, String)| (p.0@, p.1@))
}

/// The value of the first pair of `pairs` named `name`.
pub fn find_pair<'a>(pairs: &'a Vec<(String, String)>, name: &str) -> (r: Option<&'a String>)
    ensures
        match r {
            Some(v) => lookup(pairs_view(pairs@), name@) == Some(v@),
            None => lookup(pairs_view(pairs@), name@) is None,
        },
{
    let key = owned(name);
    let mut i: usize = 0;
    while i < pairs.len()
        invariant
            i <= pairs.len(),
            key@ == name@,
            forall|j: int| 0 <= j < i ==> (#[trigger] pairs_view(pairs@)[j]).0 != name@,
        decreases pairs.len() - i,
    {
        if pairs[i].0 == key {
            proof {
                lemma_index_of_is(pairs_view(pairs@), name@, i as int);
            }
            return Some(&pairs[i].1);
        }
        i += 1;
    }
    proof {
        lemma_index_of_is(pairs_view(pairs@), name@, pairs@.len() as int);
    }
    None
}

} // verus!
