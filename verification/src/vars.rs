//! The variables handed to a template: a finite map from names to values.
//!
//! The bindings are kept in the order in which they were made; a later
//! binding of a name shadows the earlier ones.

use vstd::prelude::*;
use crate::text::str_equal;

verus! {

/// A finite map from variable names to their values.
#[derive(Debug)]
pub struct Vars {
    entries: Vec<(String, String)>,
}

/// The map that a list of bindings describes: each binding overrides what
/// the bindings before it say of its name.
pub open spec fn bindings_map(entries: Seq<(String, String)>) -> Map<Seq<char>, Seq<char>>
    decreases entries.len(),
{
    if entries.len() == 0 {
        Map::empty()
    } else {
        bindings_map(entries.drop_last()).insert(entries.last().0@, entries.last().1@)
    }
}

/// The map of the first `n + 1` bindings is the map of the first `n`, with
/// binding `n` put on top.
pub proof fn lemma_bindings_step(entries: Seq<(String, String)>, n: int)
    requires
        0 <= n < entries.len(),
    ensures
        bindings_map(entries.take(n + 1)) == bindings_map(entries.take(n)).insert(
            entries[n].0@,
            entries[n].1@,
        ),
{
    assert(entries.take(n + 1).drop_last() == entries.take(n));
}

/// The map of any list of bindings is finite.
pub proof fn lemma_bindings_finite(entries: Seq<(String, String)>)
    ensures
        bindings_map(entries).dom().finite(),
    decreases entries.len(),
{
    if entries.len() > 0 {
        lemma_bindings_finite(entries.drop_last());
    }
}

/// Bindings listed one after the other: those of the second list override
/// those of the first.
pub proof fn lemma_bindings_concat(a: Seq<(String, String)>, b: Seq<(String, String)>)
    ensures
        bindings_map(a + b) == bindings_map(a).union_prefer_right(bindings_map(b)),
    decreases b.len(),
{
    if b.len() == 0 {
        assert(a + b == a);
        assert(bindings_map(a).union_prefer_right(bindings_map(b)) =~= bindings_map(a));
    } else {
        lemma_bindings_concat(a, b.drop_last());
        assert((a + b).drop_last() == a + b.drop_last());
        assert((a + b).last() == b.last());
        assert(bindings_map(a + b) =~= bindings_map(a).union_prefer_right(bindings_map(b)));
    }
}

/// No two bindings of the list have the same name.
pub open spec fn distinct_names(entries: Seq<(String, String)>) -> bool {
    forall|i: int, j: int| 0 <= i < j < entries.len() ==> entries[i].0@ != entries[j].0@
}

/// In a list without repeated names, a new value in place of the old one
/// changes the map at that name alone.
pub proof fn lemma_bindings_update(
    entries: Seq<(String, String)>,
    j: int,
    binding: (String, String),
)
    requires
        0 <= j < entries.len(),
        distinct_names(entries),
        binding.0@ == entries[j].0@,
    ensures
        distinct_names(entries.update(j, binding)),
        bindings_map(entries.update(j, binding)) == bindings_map(entries).insert(
            binding.0@,
            binding.1@,
        ),
    decreases entries.len(),
{
    let updated = entries.update(j, binding);
    assert(distinct_names(updated)) by {
        assert forall|a: int, b: int| 0 <= a < b < updated.len() implies updated[a].0@
            != updated[b].0@ by {
            assert(updated[a].0@ == entries[a].0@);
            assert(updated[b].0@ == entries[b].0@);
        }
    }
    if j == entries.len() - 1 {
        assert(updated.drop_last() == entries.drop_last());
        assert(bindings_map(updated) =~= bindings_map(entries).insert(binding.0@, binding.1@));
    } else {
        let rest = entries.drop_last();
        assert(distinct_names(rest)) by {
            assert forall|a: int, b: int| 0 <= a < b < rest.len() implies rest[a].0@
                != rest[b].0@ by {
                assert(rest[a] == entries[a]);
                assert(rest[b] == entries[b]);
            }
        }
        assert(rest[j] == entries[j]);
        lemma_bindings_update(rest, j, binding);
        assert(updated.drop_last() == rest.update(j, binding));
        assert(updated.last() == entries.last());
        assert(entries.last().0@ != binding.0@);
        assert(bindings_map(updated) =~= bindings_map(entries).insert(binding.0@, binding.1@));
    }
}

impl View for Vars {
    type V = Map<Seq<char>, Seq<char>>;

    closed spec fn view(&self) -> Map<Seq<char>, Seq<char>> {
        bindings_map(self.entries@)
    }
}

impl Vars {
    /// An empty map.
    pub fn new() -> (r: Self)
        ensures
            r@ == Map::<Seq<char>, Seq<char>>::empty(),
    {
        Vars { entries: Vec::new() }
    }

    /// The binding that decides the value of `key` among the first `n`, if
    /// there is one.
    fn position(&self, key: &str, n: usize) -> (r: Option<usize>)
        requires
            n <= self.entries@.len(),
        ensures
            match r {
                Some(i) => {
                    &&& i < n
                    &&& bindings_map(self.entries@.take(n as int)).contains_key(key@)
                    &&& bindings_map(self.entries@.take(n as int))[key@] == self.entries@[i as int].1@
                },
                None => !bindings_map(self.entries@.take(n as int)).contains_key(key@),
            },
    {
        let mut found: Option<usize> = None;
        let mut i: usize = 0;
        while i < n
            invariant
                i <= n <= self.entries@.len(),
                match found {
                    Some(j) => {
                        &&& j < i
                        &&& bindings_map(self.entries@.take(i as int)).contains_key(key@)
                        &&& bindings_map(self.entries@.take(i as int))[key@]
                            == self.entries@[j as int].1@
                    },
                    None => !bindings_map(self.entries@.take(i as int)).contains_key(key@),
                },
            decreases n - i,
        {
            proof {
                lemma_bindings_step(self.entries@, i as int);
            }
            if str_equal(self.entries[i].0.as_str(), key) {
                found = Some(i);
            }
            i += 1;
        }
        found
    }

    /// Tells whether `key` has a value.
    pub fn contains_key(&self, key: &str) -> (r: bool)
        ensures
            r == self@.contains_key(key@),
    {
        assert(self.entries@.take(self.entries@.len() as int) == self.entries@);
        self.position(key, self.entries.len()).is_some()
    }

    /// The value of `key`, if it has one.
    pub fn get(&self, key: &str) -> (r: Option<&str>)
        ensures
            match r {
                Some(v) => self@.contains_key(key@) && v@ == self@[key@],
                None => !self@.contains_key(key@),
            },
    {
        assert(self.entries@.take(self.entries@.len() as int) == self.entries@);
        match self.position(key, self.entries.len()) {
            Some(i) => Some(self.entries[i].1.as_str()),
            None => None,
        }
    }

    /// Binds `key` to `value`, in place of the value it had, if any.
    pub fn insert(&mut self, key: &str, value: &str)
        ensures
            final(self)@ == old(self)@.insert(key@, value@),
    {
        let ghost before = self.entries@;
        self.entries.push((key.to_owned(), value.to_owned()));
        assert(self.entries@.drop_last() == before);
    }

    /// The number of names that have a value.
    pub fn len(&self) -> (r: usize)
        ensures
            r == self@.len(),
            self@.dom().finite(),
    {
        let mut count: usize = 0;
        let mut i: usize = 0;
        while i < self.entries.len()
            invariant
                i <= self.entries@.len(),
                count <= i,
                count == bindings_map(self.entries@.take(i as int)).len(),
            decreases self.entries@.len() - i,
        {
            proof {
                lemma_bindings_step(self.entries@, i as int);
                lemma_bindings_finite(self.entries@.take(i as int));
            }
            if self.position(self.entries[i].0.as_str(), i).is_none() {
                count += 1;
            }
            i += 1;
        }
        proof {
            assert(self.entries@.take(i as int) == self.entries@);
            lemma_bindings_finite(self.entries@);
        }
        count
    }

    /// Tells whether no name has a value.
    pub fn is_empty(&self) -> (r: bool)
        ensures
            r == (self@ == Map::<Seq<char>, Seq<char>>::empty()),
    {
        proof {
            if self.entries@.len() > 0 {
                assert(self@.contains_key(self.entries@.last().0@));
            }
        }
        self.entries.len() == 0
    }

    /// The bindings of the map, each name once, with the value that stands
    /// for it.
    pub fn bindings(&self) -> (out: Vec<(String, String)>)
        ensures
            bindings_map(out@) == self@,
            distinct_names(out@),
    {
        let mut out: Vec<(String, String)> = Vec::new();
        let mut i: usize = 0;
        while i < self.entries.len()
            invariant
                i <= self.entries@.len(),
                distinct_names(out@),
                bindings_map(out@) == bindings_map(self.entries@.take(i as int)),
            decreases self.entries@.len() - i,
        {
            proof {
                lemma_bindings_step(self.entries@, i as int);
            }
            let binding = (self.entries[i].0.clone(), self.entries[i].1.clone());
            let ghost before = out@;
            match find_name(&out, self.entries[i].0.as_str()) {
                Some(j) => {
                    proof {
                        lemma_bindings_update(before, j as int, binding);
                    }
                    out.set(j, binding);
                },
                None => {
                    out.push(binding);
                    assert(out@.drop_last() == before);
                },
            }
            i += 1;
        }
        assert(self.entries@.take(i as int) == self.entries@);
        out
    }

    /// A map with the bindings of `self`, and on top of them those of
    /// `other`.
    pub fn merged_with(&self, other: &Vars) -> (r: Vars)
        ensures
            r@ == self@.union_prefer_right(other@),
    {
        let mut entries: Vec<(String, String)> = Vec::new();
        let mut i: usize = 0;
        while i < self.entries.len()
            invariant
                i <= self.entries@.len(),
                entries@ == self.entries@.take(i as int),
            decreases self.entries@.len() - i,
        {
            entries.push((self.entries[i].0.clone(), self.entries[i].1.clone()));
            assert(self.entries@.take(i + 1) == self.entries@.take(i as int).push(
                self.entries@[i as int],
            ));
            i += 1;
        }
        assert(self.entries@.take(i as int) == self.entries@);
        let mut j: usize = 0;
        while j < other.entries.len()
            invariant
                j <= other.entries@.len(),
                entries@ == self.entries@ + other.entries@.take(j as int),
            decreases other.entries@.len() - j,
        {
            entries.push((other.entries[j].0.clone(), other.entries[j].1.clone()));
            assert(other.entries@.take(j + 1) == other.entries@.take(j as int).push(
                other.entries@[j as int],
            ));
            j += 1;
        }
        proof {
            assert(other.entries@.take(j as int) == other.entries@);
            lemma_bindings_concat(self.entries@, other.entries@);
        }
        Vars { entries }
    }
}

/// Where a binding of `name` stands in `entries`, if there is one.
pub fn find_name(entries: &Vec<(String, String)>, name: &str) -> (r: Option<usize>)
    ensures
        match r {
            Some(j) => j < entries@.len() && entries@[j as int].0@ == name@,
            None => forall|j: int| 0 <= j < entries@.len() ==> entries@[j].0@ != name@,
        },
{
    let mut j: usize = 0;
    while j < entries.len()
        invariant
            j <= entries@.len(),
            forall|k: int| 0 <= k < j ==> entries@[k].0@ != name@,
        decreases entries@.len() - j,
    {
        if str_equal(entries[j].0.as_str(), name) {
            return Some(j);
        }
        j += 1;
    }
    None
}

impl Clone for Vars {
    fn clone(&self) -> (r: Self)
        ensures
            r@ == self@,
    {
        let empty = Vars::new();
        let r = self.merged_with(&empty);
        assert(r@ =~= self@);
        r
    }
}

} // verus!
