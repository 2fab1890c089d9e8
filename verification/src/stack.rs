//! The direction stack: the ordered, duplicate-free sequence of movement
//! directions currently held, newest last. Its tail is the direction the
//! entity is moving in.

use vstd::prelude::*;
use vstd::seq_lib::lemma_seq_concat_contains_all_elements;
use vstd::seq_lib::lemma_seq_contains;
use vstd::seq_lib::lemma_seq_contains_after_push;

use crate::direction::Direction;

verus! {

/// Whether a sequence of directions holds each direction at most once.
pub open spec fn no_duplicates(s: Seq<Direction>) -> bool {
    forall|i: int, j: int| 0 <= i < j < s.len() ==> s[i] != s[j]
}

/// The sequence with the first occurrence of `d` (if any) removed;
/// on a duplicate-free sequence, the sequence with `d` removed.
pub open spec fn seq_remove(s: Seq<Direction>, d: Direction) -> Seq<Direction>
    decreases s.len(),
{
    if s.len() == 0 {
        s
    } else if s.first() == d {
        s.drop_first()
    } else {
        seq![s.first()] + seq_remove(s.drop_first(), d)
    }
}

/// What removal does to membership, length and duplicate-freedom.
pub proof fn lemma_seq_remove_properties(s: Seq<Direction>, d: Direction)
    ensures
        !s.contains(d) ==> seq_remove(s, d) == s,
        s.contains(d) ==> seq_remove(s, d).len() == s.len() - 1,
        !s.contains(d) ==> seq_remove(s, d).len() == s.len(),
        forall|e: Direction| e != d ==> seq_remove(s, d).contains(e) == s.contains(e),
        no_duplicates(s) ==> no_duplicates(seq_remove(s, d)),
        no_duplicates(s) ==> !seq_remove(s, d).contains(d),
    decreases s.len(),
{
    broadcast use lemma_seq_contains, lemma_seq_concat_contains_all_elements;

    if s.len() == 0 {
        assert(!s.contains(d));
    } else if s.first() == d {
        assert(s.contains(d)) by {
            assert(s[0] == d);
        }
        assert forall|e: Direction| e != d implies
            seq_remove(s, d).contains(e) == s.contains(e) by {
            if s.drop_first().contains(e) {
                let i = choose|i: int| 0 <= i < s.drop_first().len() && s.drop_first()[i] == e;
                assert(s[i + 1] == e);
            }
            if s.contains(e) {
                let i = choose|i: int| 0 <= i < s.len() && s[i] == e;
                assert(i != 0);
                assert(s.drop_first()[i - 1] == e);
            }
        }
        if no_duplicates(s) {
            assert forall|i: int, j: int|
                0 <= i < j < s.drop_first().len() implies s.drop_first()[i] != s.drop_first()[j] by {
                assert(s[i + 1] != s[j + 1]);
            }
            assert(!s.drop_first().contains(d)) by {
                if s.drop_first().contains(d) {
                    let i = choose|i: int|
                        0 <= i < s.drop_first().len() && s.drop_first()[i] == d;
                    assert(s[i + 1] == s[0]);
                }
            }
        }
    } else {
        let rest = s.drop_first();
        lemma_seq_remove_properties(rest, d);
        assert(rest.contains(d) == s.contains(d)) by {
            if rest.contains(d) {
                let i = choose|i: int| 0 <= i < rest.len() && rest[i] == d;
                assert(s[i + 1] == d);
            }
            if s.contains(d) {
                let i = choose|i: int| 0 <= i < s.len() && s[i] == d;
                assert(i != 0);
                assert(rest[i - 1] == d);
            }
        }
        if !s.contains(d) {
            assert(seq_remove(s, d) =~= s) by {
                assert(seq_remove(rest, d) == rest);
                assert(seq![s.first()] + rest =~= s);
            }
        }
        assert forall|e: Direction| e != d implies
            seq_remove(s, d).contains(e) == s.contains(e) by {
            assert(seq![s.first()].contains(e) == (s.first() == e)) by {
                if seq![s.first()].contains(e) {
                    let i = choose|i: int| 0 <= i < 1 && seq![s.first()][i] == e;
                }
                if s.first() == e {
                    assert(seq![s.first()][0] == e);
                }
            }
            if rest.contains(e) {
                let i = choose|i: int| 0 <= i < rest.len() && rest[i] == e;
                assert(s[i + 1] == e);
            }
            if s.contains(e) && s.first() != e {
                let i = choose|i: int| 0 <= i < s.len() && s[i] == e;
                assert(i != 0);
                assert(rest[i - 1] == e);
            }
        }
        if no_duplicates(s) {
            assert forall|i: int, j: int|
                0 <= i < j < rest.len() implies rest[i] != rest[j] by {
                assert(s[i + 1] != s[j + 1]);
            }
            assert(!rest.contains(s.first())) by {
                if rest.contains(s.first()) {
                    let i = choose|i: int| 0 <= i < rest.len() && rest[i] == s.first();
                    assert(s[i + 1] == s[0]);
                }
            }
            let out = seq_remove(s, d);
            assert(out == seq![s.first()] + seq_remove(rest, d));
            assert forall|i: int, j: int| 0 <= i < j < out.len() implies out[i] != out[j] by {
                if i == 0 {
                    assert(out[j] == seq_remove(rest, d)[j - 1]);
                    assert(seq_remove(rest, d).contains(seq_remove(rest, d)[j - 1]));
                    assert(rest.contains(out[j]));
                } else {
                    assert(out[i] == seq_remove(rest, d)[i - 1]);
                    assert(out[j] == seq_remove(rest, d)[j - 1]);
                    assert(no_duplicates(seq_remove(rest, d)));
                }
            }
        }
    }
}

/// Removing the index of the first occurrence is the same as `seq_remove`.
pub proof fn lemma_seq_remove_index(s: Seq<Direction>, d: Direction, i: int)
    requires
        0 <= i < s.len(),
        s[i] == d,
        forall|j: int| 0 <= j < i ==> s[j] != d,
    ensures
        seq_remove(s, d) == s.remove(i),
    decreases i,
{
    if i == 0 {
        assert(s.first() == d);
        assert(s.drop_first() =~= s.remove(0));
    } else {
        let rest = s.drop_first();
        assert(rest[i - 1] == d);
        assert forall|j: int| 0 <= j < i - 1 implies rest[j] != d by {
            assert(s[j + 1] != d);
        }
        lemma_seq_remove_index(rest, d, i - 1);
        assert(seq![s.first()] + rest.remove(i - 1) =~= s.remove(i));
    }
}

/// Removing a direction just pushed onto a stack that did not hold it
/// restores the stack.
pub proof fn lemma_seq_remove_push(s: Seq<Direction>, d: Direction)
    requires
        !s.contains(d),
    ensures
        seq_remove(s.push(d), d) == s,
    decreases s.len(),
{
    if s.len() == 0 {
        assert(s.push(d).first() == d);
        assert(s.push(d).drop_first() =~= s);
    } else {
        assert(s.first() != d) by {
            assert(s[0] == s.first());
        }
        assert(s.push(d).first() == s.first());
        assert(s.push(d).drop_first() =~= s.drop_first().push(d));
        assert(!s.drop_first().contains(d)) by {
            if s.drop_first().contains(d) {
                let i = choose|i: int| 0 <= i < s.drop_first().len() && s.drop_first()[i] == d;
                assert(s[i + 1] == d);
                broadcast use lemma_seq_contains;

            }
        }
        lemma_seq_remove_push(s.drop_first(), d);
        assert(seq![s.first()] + s.drop_first() =~= s);
    }
}

/// The ordered collection of directions currently held, newest last.
/// Pushing a direction already held is a no-op, so a well-formed stack
/// never holds duplicates.
#[derive(Debug, Clone, PartialEq, Eq)]
pub struct DirectionStack {
    held: Vec<Direction>,
}

impl View for DirectionStack {
    type V = Seq<Direction>;

    closed spec fn view(&self) -> Seq<Direction> {
        self.held@
    }
}

impl DirectionStack {
    /// Whether the stack holds each direction at most once.
    pub open spec fn wf(&self) -> bool {
        no_duplicates(self@)
    }

    /// The empty stack.
    pub fn new() -> (s: DirectionStack)
        ensures
            s@ == Seq::<Direction>::empty(),
            s.wf(),
    {
        DirectionStack { held: Vec::new() }
    }

    /// How many directions are held.
    pub fn len(&self) -> (n: usize)
        ensures
            n == self@.len(),
    {
        self.held.len()
    }

    /// Whether no direction is held.
    pub fn is_empty(&self) -> (b: bool)
        ensures
            b == (self@.len() == 0),
    {
        self.held.len() == 0
    }

    /// The index of the first occurrence of `d`, if `d` is held.
    fn index_of(&self, d: Direction) -> (r: Option<usize>)
        ensures
            match r {
                Some(i) => i < self@.len() && self@[i as int] == d
                    && forall|j: int| 0 <= j < i ==> self@[j] != d,
                None => !self@.contains(d),
            },
    {
        let mut i: usize = 0;
        while i < self.held.len()
            invariant
                i <= self.held@.len(),
                forall|j: int| 0 <= j < i ==> self.held@[j] != d,
            decreases self.held@.len() - i,
        {
            if self.held[i] == d {
                return Some(i);
            }
            i = i + 1;
        }
        proof {
            broadcast use lemma_seq_contains;

        }
        None
    }

    /// Whether `d` is currently held.
    pub fn contains(&self, d: Direction) -> (b: bool)
        ensures
            b == self@.contains(d),
    {
        proof {
            broadcast use lemma_seq_contains;

        }
        self.index_of(d).is_some()
    }

    /// The most recently pushed direction: the current movement direction.
    pub fn back(&self) -> (r: Option<Direction>)
        ensures
            r == if self@.len() == 0 {
                Option::<Direction>::None
            } else {
                Option::<Direction>::Some(self@.last())
            },
    {
        if self.held.len() == 0 {
            None
        } else {
            Some(self.held[self.held.len() - 1])
        }
    }

    /// Push `d` as the newest direction; a no-op if `d` is already held.
    pub fn push(&mut self, d: Direction)
        ensures
            old(self)@.contains(d) ==> final(self)@ == old(self)@,
            !old(self)@.contains(d) ==> final(self)@ == old(self)@.push(d),
            old(self).wf() ==> final(self).wf(),
    {
        let present = self.contains(d);
        if !present {
            self.held.push(d);
            proof {
                broadcast use lemma_seq_contains, lemma_seq_contains_after_push;

                if no_duplicates(old(self)@) {
                    assert forall|i: int, j: int|
                        0 <= i < j < self@.len() implies self@[i] != self@[j] by {
                        if j == self@.len() - 1 {
                            assert(old(self)@[i] == self@[i]);
                            assert(old(self)@.contains(self@[i]));
                        }
                    }
                }
            }
        }
    }

    /// Remove the first occurrence of `d`, wherever it sits; a no-op if
    /// `d` is not held.
    pub fn remove(&mut self, d: Direction)
        ensures
            final(self)@ == seq_remove(old(self)@, d),
            old(self).wf() ==> final(self).wf(),
    {
        proof {
            lemma_seq_remove_properties(old(self)@, d);
        }
        match self.index_of(d) {
            Some(i) => {
                proof {
                    lemma_seq_remove_index(self@, d, i as int);
                }
                self.held.remove(i);
            },
            None => {
            },
        }
    }
}

} // verus!
