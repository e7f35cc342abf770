//! Names put together from pieces, the identifiers of named objects, and a
//! small table from names to what belongs to them.

use crate::id::{derive_id, id_of};
use crate::text::{has_at, matches_at, to_chars};
use vstd::prelude::*;
use vstd::string::{StrSliceExecFns, StringExecFns};

verus! {

/// `a` followed by `b`.
pub fn cat(a: &str, b: &str) -> (r: String)
    ensures
        r@ == a@ + b@,
{
    let mut r = String::new();
    r.append(a);
    r.append(b);
    assert(r@ =~= a@ + b@);
    r
}

/// `a`, `b` and `c`, one after the other.
pub fn cat3(a: &str, b: &str, c: &str) -> (r: String)
    ensures
        r@ == a@ + b@ + c@,
{
    let mut r = String::new();
    r.append(a);
    r.append(b);
    r.append(c);
    assert(r@ =~= a@ + b@ + c@);
    r
}

/// `a`, `b`, `c`, `d` and `e`, one after the other.
pub fn cat5(a: &str, b: &str, c: &str, d: &str, e: &str) -> (r: String)
    ensures
        r@ == a@ + b@ + c@ + d@ + e@,
{
    let mut r = String::new();
    r.append(a);
    r.append(b);
    r.append(c);
    r.append(d);
    r.append(e);
    assert(r@ =~= a@ + b@ + c@ + d@ + e@);
    r
}

/// Whether `text` ends in `suffix`.
pub open spec fn ends_in(text: Seq<char>, suffix: Seq<char>) -> bool {
    has_at(text, text.len() - suffix.len(), suffix)
}

/// Tells whether `text` ends in `suffix`.
pub fn ends_with(text: &str, suffix: &str) -> (r: bool)
    ensures
        r == ends_in(text@, suffix@),
{
    let chars = to_chars(text);
    let n = suffix.unicode_len();
    if n > chars.len() {
        false
    } else {
        matches_at(chars.as_slice(), chars.len() - n, suffix)
    }
}

/// The identifier of the object of kind `kind` whose name is `name`
/// followed by `suffix`.
pub open spec fn named_id(id_base: u64, kind: Seq<char>, name: Seq<char>, suffix: Seq<char>) -> Seq<
    char,
> {
    id_of(id_base, kind, name + suffix)
}

/// Derives the identifier of the object of kind `kind` whose name is `name`
/// followed by `suffix`.
pub fn object_id(id_base: u64, kind: &str, name: &str, suffix: &str) -> (r: String)
    ensures
        r@ == named_id(id_base, kind@, name@, suffix@),
{
    derive_id(id_base, kind, cat(name, suffix).as_str())
}

/// A table from names to values, in the order in which the names came in.
/// No name stands in it twice.
pub struct NameTable<V> {
    pub names: Vec<String>,
    pub values: Vec<V>,
}

impl<V> NameTable<V> {
    /// As many values as names, and no name twice.
    pub open spec fn wf(&self) -> bool {
        &&& self.names.len() == self.values.len()
        &&& forall|i: int, j: int|
            0 <= i < j < self.names.len() ==> self.names[i]@ != self.names[j]@
    }

    /// The names of the table, in their order.
    pub open spec fn keys(&self) -> Seq<Seq<char>> {
        Seq::new(self.names.len() as nat, |i: int| self.names[i]@)
    }

    /// A name stands in the table where it is among the names.
    pub proof fn lemma_has(&self, name: Seq<char>)
        ensures
            self.has(name) == self.keys().contains(name),
    {
        if self.has(name) {
            let i = self.index_of(name);
            assert(self.keys()[i] == name);
        }
        if self.keys().contains(name) {
            let i = choose|i: int| 0 <= i < self.keys().len() && self.keys()[i] == name;
            assert(self.names[i]@ == name);
        }
    }

    /// Whether `name` stands in the table.
    pub open spec fn has(&self, name: Seq<char>) -> bool {
        exists|i: int| 0 <= i < self.names.len() && #[trigger] self.names[i]@ == name
    }

    /// Where `name` stands in the table.
    pub open spec fn index_of(&self, name: Seq<char>) -> int {
        choose|i: int| 0 <= i < self.names.len() && #[trigger] self.names[i]@ == name
    }

    /// The value that belongs to `name`.
    pub open spec fn value_of(&self, name: Seq<char>) -> V {
        self.values[self.index_of(name)]
    }

    /// The empty table.
    pub fn new() -> (r: Self)
        ensures
            r.wf(),
            r.names.len() == 0,
    {
        NameTable { names: Vec::new(), values: Vec::new() }
    }

    /// How many names the table holds.
    pub fn len(&self) -> (r: usize)
        requires
            self.wf(),
        ensures
            r == self.names.len(),
            r == self.values.len(),
    {
        self.names.len()
    }

    /// The place of `name` in the table, if it stands there.
    pub fn find(&self, name: &str) -> (r: Option<usize>)
        requires
            self.wf(),
        ensures
            match r {
                Some(i) => i < self.names.len() && self.names[i as int]@ == name@ && self.has(
                    name@,
                ) && self.index_of(name@) == i,
                None => !self.has(name@),
            },
    {
        let sought = name.to_owned();
        let mut i: usize = 0;
        while i < self.names.len()
            invariant
                i <= self.names.len(),
                self.wf(),
                sought@ == name@,
                forall|j: int| 0 <= j < i ==> self.names[j]@ != name@,
            decreases self.names.len() - i,
        {
            if self.names[i] == sought {
                assert(self.has(name@));
                return Some(i);
            }
            i += 1;
        }
        None
    }

    /// The value that belongs to `name`, if the name stands in the table.
    pub fn get(&self, name: &str) -> (r: Option<&V>)
        requires
            self.wf(),
        ensures
            match r {
                Some(v) => self.has(name@) && *v == self.value_of(name@),
                None => !self.has(name@),
            },
    {
        match self.find(name) {
            Some(i) => Some(&self.values[i]),
            None => None,
        }
    }

    /// Lets `value` belong to `name`: in the place where the name stands, or
    /// at the end if it does not stand in the table yet. What belongs to
    /// other names stays.
    pub fn insert(&mut self, name: String, value: V)
        requires
            old(self).wf(),
        ensures
            final(self).wf(),
            final(self).has(name@),
            final(self).value_of(name@) == value,
            forall|other: Seq<char>| old(self).has(other) ==> final(self).has(other),
            forall|other: Seq<char>|
                #[trigger] final(self).has(other) ==> old(self).has(other) || other == name@,
            forall|other: Seq<char>|
                old(self).has(other) && other != name@ ==> final(self).value_of(other) == old(
                    self,
                ).value_of(other),
            old(self).has(name@) ==> final(self).names.len() == old(self).names.len(),
            !old(self).has(name@) ==> final(self).names.len() == old(self).names.len() + 1,
            forall|i: int|
                0 <= i < old(self).names.len() ==> final(self).names[i]@ == old(self).names[i]@,
            !old(self).has(name@) ==> final(self).names[old(self).names.len() as int]@ == name@,
            old(self).has(name@) ==> final(self).keys() == old(self).keys(),
            old(self).has(name@) ==> final(self).values@ == old(self).values@.update(
                old(self).index_of(name@),
                value,
            ),
            !old(self).has(name@) ==> final(self).keys() == old(self).keys().push(name@),
            !old(self).has(name@) ==> final(self).values@ == old(self).values@.push(value),
    {
        match self.find(name.as_str()) {
            Some(i) => {
                self.values.set(i, value);
                assert(self.names[i as int]@ == name@);
                assert(self.keys() =~= old(self).keys());
                assert forall|other: Seq<char>| old(self).has(other) implies self.has(other) by {
                    let k = old(self).index_of(other);
                    assert(self.names[k]@ == other);
                }
                assert forall|other: Seq<char>| old(self).has(other) && other != name@ implies self.value_of(
                    other,
                ) == old(self).value_of(other) by {
                    let k = old(self).index_of(other);
                    assert(self.names[k]@ == other);
                    let m = self.index_of(other);
                    assert(m == k);
                }
            },
            None => {
                let ghost n = self.names.len() as int;
                self.names.push(name);
                self.values.push(value);
                assert(self.names[n]@ == name@);
                assert forall|i: int, j: int| 0 <= i < j < self.names.len() implies self.names[i]@
                    != self.names[j]@ by {
                    if j == n {
                        if old(self).names[i]@ == name@ {
                            assert(old(self).has(name@));
                        }
                    }
                }
                assert(self.index_of(name@) == n);
                assert(self.keys() =~= old(self).keys().push(name@));
                assert forall|other: Seq<char>| old(self).has(other) implies self.has(other) by {
                    let k = old(self).index_of(other);
                    assert(self.names[k]@ == other);
                }
                assert forall|other: Seq<char>| old(self).has(other) && other != name@ implies self.value_of(
                    other,
                ) == old(self).value_of(other) by {
                    let k = old(self).index_of(other);
                    assert(self.names[k]@ == other);
                    let m = self.index_of(other);
                    assert(m == k);
                }
            },
        }
    }
}

} // verus!
