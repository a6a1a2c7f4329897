use vstd::prelude::*;

verus! {

/// One change that a [`crate::FixedVec`] allows to its length: each adds
/// elements and removes none.
pub enum Growth<A> {
    /// A new last element.
    Push(A),
    /// A new element at a position, with everything from there on moved one up.
    Insert(int, A),
    /// Further elements after the last one.
    Append(Seq<A>),
}

impl<A> Growth<A> {
    /// Whether the step can be taken on `s`: an insertion needs a position
    /// inside `s` or just past its end.
    pub open spec fn fits(self, s: Seq<A>) -> bool {
        match self {
            Growth::Insert(at, _) => 0 <= at <= s.len(),
            _ => true,
        }
    }

    /// The sequence after the step.
    pub open spec fn apply(self, s: Seq<A>) -> Seq<A> {
        match self {
            Growth::Push(value) => s.push(value),
            Growth::Insert(at, element) => s.insert(at, element),
            Growth::Append(other) => s + other,
        }
    }

    /// Where the element that stood at `position` stands after the step: one
    /// up if the step inserted at or before it, else where it was.
    pub open spec fn moves(self, position: int) -> int {
        match self {
            Growth::Insert(at, _) => if at <= position {
                position + 1
            } else {
                position
            },
            _ => position,
        }
    }

    /// Whether the step leaves the element at `position` where it is.
    pub open spec fn spares(self, position: int) -> bool {
        match self {
            Growth::Insert(at, _) => position < at,
            _ => true,
        }
    }
}

/// Whether the steps can be taken on `s` one after the other.
pub open spec fn fit_all<A>(s: Seq<A>, steps: Seq<Growth<A>>) -> bool
    decreases steps.len(),
{
    steps.len() > 0 ==> steps[0].fits(s) && fit_all(steps[0].apply(s), steps.drop_first())
}

/// The sequence after all the steps, taken in order.
pub open spec fn apply_all<A>(s: Seq<A>, steps: Seq<Growth<A>>) -> Seq<A>
    decreases steps.len(),
{
    if steps.len() > 0 {
        apply_all(steps[0].apply(s), steps.drop_first())
    } else {
        s
    }
}

/// Where the element that stood at `position` stands after all the steps.
pub open spec fn move_all<A>(position: int, steps: Seq<Growth<A>>) -> int
    decreases steps.len(),
{
    if steps.len() > 0 {
        move_all(steps[0].moves(position), steps.drop_first())
    } else {
        position
    }
}

/// Whether every step leaves the element at `position` where it is.
pub open spec fn spare_all<A>(position: int, steps: Seq<Growth<A>>) -> bool {
    forall|k: int| 0 <= k < steps.len() ==> (#[trigger] steps[k]).spares(position)
}

/// A single step never shortens the sequence, and the element that stood at
/// `position` is found again where the step moved it.
pub proof fn lemma_step_keeps_element<A>(s: Seq<A>, step: Growth<A>, position: int)
    requires
        0 <= position < s.len(),
        step.fits(s),
    ensures
        s.len() <= step.apply(s).len(),
        position <= step.moves(position) < step.apply(s).len(),
        step.apply(s)[step.moves(position)] == s[position],
        step.spares(position) ==> step.moves(position) == position,
{
}

/// Growth never invalidates a position: after any steps the sequence is at
/// least as long as before, a position that was in bounds is still in bounds,
/// and the element that stood there is found where the steps moved it.
pub proof fn lemma_growth_keeps_element<A>(s: Seq<A>, steps: Seq<Growth<A>>, position: int)
    requires
        0 <= position < s.len(),
        fit_all(s, steps),
    ensures
        s.len() <= apply_all(s, steps).len(),
        position <= move_all(position, steps) < apply_all(s, steps).len(),
        apply_all(s, steps)[move_all(position, steps)] == s[position],
    decreases steps.len(),
{
    if steps.len() > 0 {
        lemma_step_keeps_element(s, steps[0], position);
        lemma_growth_keeps_element(
            steps[0].apply(s),
            steps.drop_first(),
            steps[0].moves(position),
        );
    }
}

/// When no step inserts at or before `position`, the element that stood there
/// still stands there after all the steps.
pub proof fn lemma_growth_keeps_place<A>(s: Seq<A>, steps: Seq<Growth<A>>, position: int)
    requires
        0 <= position < s.len(),
        fit_all(s, steps),
        spare_all(position, steps),
    ensures
        move_all(position, steps) == position,
        position < apply_all(s, steps).len(),
        apply_all(s, steps)[position] == s[position],
    decreases steps.len(),
{
    if steps.len() > 0 {
        lemma_step_keeps_element(s, steps[0], position);
        let rest = steps.drop_first();
        assert forall|k: int| 0 <= k < rest.len() implies (#[trigger] rest[k]).spares(position) by {
            assert(rest[k] == steps[k + 1]);
        }
        lemma_growth_keeps_place(steps[0].apply(s), rest, position);
    }
}

} // verus!
