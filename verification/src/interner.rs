//! Content-addressed string interning.
//!
//! A recording session maps each distinct string content to a stable small
//! identifier.  Within one session equal content always yields the same
//! identifier, and distinct content always yields a distinct one: the table
//! never holds two entries with the same content, and an identifier, once
//! handed out, keeps denoting the same content for the session's lifetime.

use vstd::prelude::*;

verus! {

/// True when no two entries of `v` hold the same content.
pub open spec fn distinct_contents(v: Seq<Seq<char>>) -> bool {
    forall|i: int, j: int|
        0 <= i < v.len() && 0 <= j < v.len() && v[i] == v[j] ==> i == j
}

/// True when some entry of `v` holds the content `s`.
pub open spec fn has_content(v: Seq<Seq<char>>, s: Seq<char>) -> bool {
    exists|i: int| 0 <= i < v.len() && v[i] == s
}

/// The identifier an interning call returns on a table `v`: the index of the
/// entry holding `s`, or the next free index when `s` is not yet present.
pub open spec fn content_id(v: Seq<Seq<char>>, s: Seq<char>) -> int {
    if has_content(v, s) {
        choose|i: int| 0 <= i < v.len() && v[i] == s
    } else {
        v.len() as int
    }
}

/// The table after interning `s`: unchanged when the content is already
/// present, extended by one entry holding `s` otherwise.
pub open spec fn intern_step(v: Seq<Seq<char>>, s: Seq<char>) -> Seq<Seq<char>> {
    if has_content(v, s) {
        v
    } else {
        v.push(s)
    }
}

/// Maps string content to stable small identifiers within one session.
pub struct StringInterner {
    entries: Vec<String>,
}

impl View for StringInterner {
    type V = Seq<Seq<char>>;

    /// The contents interned so far, in order of first appearance; the
    /// identifier of a content is its index here.
    closed spec fn view(&self) -> Seq<Seq<char>> {
        Seq::new(self.entries@.len(), |i: int| self.entries@[i]@)
    }
}

impl StringInterner {
    /// The table never holds two entries with the same content.
    pub open spec fn wf(&self) -> bool {
        distinct_contents(self@)
    }

    /// An empty table: nothing is interned yet.
    pub fn new() -> (r: StringInterner)
        ensures
            r.wf(),
            r@ == Seq::<Seq<char>>::empty(),
    {
        let r = StringInterner { entries: Vec::new() };
        proof {
            assert(r@ =~= Seq::<Seq<char>>::empty());
        }
        r
    }

    /// How many distinct contents are interned.
    pub fn len(&self) -> (n: usize)
        ensures
            n == self@.len(),
    {
        self.entries.len()
    }

    /// Interns `s`: returns the identifier of the entry holding `s`'s
    /// content, adding the entry first when the content is new.  Equal
    /// content always yields the same identifier.
    pub fn intern(&mut self, s: &str) -> (id: usize)
        requires
            old(self).wf(),
        ensures
            final(self).wf(),
            final(self)@ == intern_step(old(self)@, s@),
            id == content_id(old(self)@, s@),
            id < final(self)@.len(),
            final(self)@[id as int] == s@,
    {
        let owned: String = s.to_owned();
        let n = self.entries.len();
        let mut i: usize = 0;
        while i < n
            invariant
                *self == *old(self),
                owned@ == s@,
                n == self.entries@.len(),
                i <= n,
                old(self).wf(),
                forall|j: int| 0 <= j < i ==> self@[j] != s@,
            decreases n - i,
        {
            if self.entries[i] == owned {
                proof {
                    assert(self@[i as int] == s@);
                    let w = choose|k: int| 0 <= k < self@.len() && self@[k] == s@;
                    assert(self@[w] == self@[i as int]);
                }
                return i;
            }
            i += 1;
        }
        proof {
            assert(!has_content(self@, s@));
        }
        self.entries.push(owned);
        proof {
            assert(self@ =~= old(self)@.push(s@));
            assert forall|p: int, q: int|
                0 <= p < self@.len() && 0 <= q < self@.len() && self@[p] == self@[q]
                implies p == q by {
                if p < old(self)@.len() && q < old(self)@.len() {
                    assert(old(self)@[p] == old(self)@[q]);
                } else if p < old(self)@.len() && q == old(self)@.len() {
                    assert(old(self)@[p] == s@);
                } else if p == old(self)@.len() && q < old(self)@.len() {
                    assert(old(self)@[q] == s@);
                }
            }
        }
        n
    }

    /// The content an identifier denotes.
    pub fn lookup(&self, id: usize) -> (r: &str)
        requires
            id < self@.len(),
        ensures
            r@ == self@[id as int],
    {
        self.entries[id].as_str()
    }
}

/// Interning is content-addressed: on any table, two interning calls with
/// equal content yield the same identifier, and the second call leaves the
/// table unchanged.
pub proof fn lemma_interning_content_addressed(v: Seq<Seq<char>>, s: Seq<char>)
    ensures
        intern_step(intern_step(v, s), s) == intern_step(v, s),
        content_id(intern_step(v, s), s) == content_id(v, s),
{
    let v1 = intern_step(v, s);
    if has_content(v, s) {
        assert(v1 == v);
    } else {
        assert(v1 == v.push(s));
        assert(v1[v.len() as int] == s);
        assert(has_content(v1, s));
        assert(intern_step(v1, s) == v1);
        let w = choose|i: int| 0 <= i < v1.len() && v1[i] == s;
        if w < v.len() {
            assert(v[w] == s);
            assert(has_content(v, s));
        }
        assert(w == v.len() as int);
    }
}

/// An identifier, once handed out, is stable: interning any other content
/// afterwards leaves both the presence and the identifier of `s` unchanged,
/// and keeps the table free of duplicates.  So two interning calls with
/// equal content yield the same identifier whatever is interned between
/// them.
pub proof fn lemma_interned_id_stable(v: Seq<Seq<char>>, s: Seq<char>, t: Seq<char>)
    requires
        distinct_contents(v),
        has_content(v, s),
    ensures
        has_content(intern_step(v, t), s),
        content_id(intern_step(v, t), s) == content_id(v, s),
        distinct_contents(intern_step(v, t)),
{
    let v1 = intern_step(v, t);
    let w = choose|i: int| 0 <= i < v.len() && v[i] == s;
    assert(v1[w] == s);
    assert(has_content(v1, s));
    if has_content(v, t) {
        assert(v1 == v);
    } else {
        assert(v1 == v.push(t));
        let w1 = choose|i: int| 0 <= i < v1.len() && v1[i] == s;
        if w1 == v.len() {
            assert(v[w] == t);
        } else {
            assert(v[w1] == s && v[w] == s);
        }
        assert(w1 == w);
        assert forall|p: int, q: int|
            0 <= p < v1.len() && 0 <= q < v1.len() && v1[p] == v1[q]
            implies p == q by {
            if p < v.len() && q < v.len() {
                assert(v[p] == v[q]);
            } else if p < v.len() && q == v.len() {
                assert(v[p] == t);
            } else if p == v.len() && q < v.len() {
                assert(v[q] == t);
            }
        }
    }
}

} // verus!
