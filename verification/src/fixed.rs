use crate::growth::apply_all;
use crate::growth::fit_all;
use crate::growth::lemma_growth_keeps_element;
use crate::growth::lemma_growth_keeps_place;
use crate::growth::move_all;
use crate::growth::spare_all;
use crate::growth::Growth;
use crate::index::Index;
use crate::range::CheckedRange;
use std::marker::PhantomData;
use std::ops::Deref;
use std::ops::Range;
use vstd::layout::size_of;
use vstd::prelude::*;

verus! {

/// A vector that never shrinks while it is wrapped, branded with `Name`.
///
/// The view of a `FixedVec` is the sequence of its elements. Every operation
/// that changes it keeps each position that was in bounds before in bounds
/// after, so an [`Index`] that the vector admits once is admitted until the
/// vector is unwrapped again.
#[derive(Debug, PartialEq, Eq, Hash, PartialOrd, Ord)]
pub struct FixedVec<A, Name> {
    inner: Vec<A>,
    _phantom: PhantomData<Name>,
}

impl<A, Name> View for FixedVec<A, Name> {
    type V = Seq<A>;

    closed spec fn view(&self) -> Seq<A> {
        self.inner@
    }
}

/// `Vec::reserve_exact`: the elements stay as they are. The call panics when
/// the capacity asked for, the length plus `additional`, overflows or takes
/// more than `isize::MAX` bytes, so such requests are left out.
#[verifier::external_body]
fn vec_reserve_exact<A>(vec: &mut Vec<A>, additional: usize)
    requires
        old(vec)@.len() + additional <= usize::MAX,
        (old(vec)@.len() + additional) * size_of::<A>() <= isize::MAX,
    ensures
        final(vec)@ == old(vec)@,
{
    vec.reserve_exact(additional)
}

/// `Vec::shrink_to_fit`: only spare capacity is given back, the elements stay
/// as they are.
#[verifier::external_body]
fn vec_shrink_to_fit<A>(vec: &mut Vec<A>)
    ensures
        final(vec)@ == old(vec)@,
{
    vec.shrink_to_fit()
}

impl<A, Name> FixedVec<A, Name> {
    /// Whether `index` points inside this vector.
    pub open spec fn admits(&self, index: Index<Name>) -> bool {
        index@ < self@.len()
    }

    /// Whether every position that `range` covers lies inside this vector.
    pub open spec fn admits_range(&self, range: CheckedRange<Name>) -> bool {
        range.end() <= self@.len()
    }

    /// An index that the vector admitted before it grew is admitted after, and
    /// the element it pointed at is found where the growth moved it. Where no
    /// step inserted at or before the index, that is the index itself.
    pub proof fn lemma_index_survives_growth(
        before: Self,
        after: Self,
        steps: Seq<Growth<A>>,
        index: Index<Name>,
    )
        requires
            before.admits(index),
            fit_all(before@, steps),
            after@ == apply_all(before@, steps),
        ensures
            after.admits(index),
            index@ <= move_all(index@ as int, steps) < after@.len(),
            after@[move_all(index@ as int, steps)] == before@[index@ as int],
            spare_all(index@ as int, steps) ==> after@[index@ as int] == before@[index@ as int],
    {
        lemma_growth_keeps_element(before@, steps, index@ as int);
        if spare_all(index@ as int, steps) {
            lemma_growth_keeps_place(before@, steps, index@ as int);
        }
    }

    /// Every position that an admitted range still has to hand out lies inside
    /// the vector.
    pub proof fn lemma_range_stays_inside(self, range: CheckedRange<Name>, k: int)
        requires
            self.admits_range(range),
            0 <= k < range.remaining().len(),
        ensures
            range.remaining()[k] < self@.len(),
    {
    }

    /// Wraps `val` under the brand `Name`. The caller picks a brand that no
    /// other live vector carries: the compiler then keeps the indices of two
    /// vectors apart, and [`FixedVec::admits`] says which indices this one
    /// takes.
    pub fn fix(val: Vec<A>) -> (result: Self)
        ensures
            result@ == val@,
    {
        FixedVec { inner: val, _phantom: PhantomData }
    }

    /// Unwraps the vector so that its length may change freely again. Taking
    /// the `FixedVec` by value ends the use of every index checked against it.
    pub fn unfix(self) -> (result: Vec<A>)
        ensures
            result@ == self@,
    {
        self.inner
    }

    /// Checks `index` against the current length. This is the only way to get
    /// an [`Index`] directly.
    pub fn check_index(&self, index: usize) -> (result: Option<Index<Name>>)
        ensures
            result is Some <==> index < self@.len(),
            result is Some ==> result.unwrap()@ == index && self.admits(result.unwrap()),
    {
        if self.inner.len() <= index {
            None
        } else {
            Some(Index::new(index))
        }
    }

    /// Checks a whole range against the current length: it is accepted when
    /// its end is at most the length, so a range may reach the last element.
    pub fn check_range(&self, range: Range<usize>) -> (result: Option<CheckedRange<Name>>)
        ensures
            result is Some <==> range.end <= self@.len(),
            result is Some ==> result.unwrap().start() == range.start
                && result.unwrap().end() == range.end
                && self.admits_range(result.unwrap()),
    {
        if range.end > self.inner.len() {
            None
        } else {
            Some(CheckedRange::new(range))
        }
    }

    /// The element at a position that this vector admits. The position was
    /// checked when the index was made, and the vector has not shrunk since.
    pub fn get(&self, index: Index<Name>) -> (result: &A)
        requires
            self.admits(index),
        ensures
            *result == self@[index@ as int],
    {
        &self.inner[*index]
    }

    /// Mutable access to the element at a position that this vector admits.
    /// Writing through the reference changes that element and nothing else.
    pub fn get_mut(&mut self, index: Index<Name>) -> (result: &mut A)
        requires
            old(self).admits(index),
        ensures
            *result == old(self)@[index@ as int],
            final(self)@ == old(self)@.update(index@ as int, *final(result)),
            final(self)@.len() == old(self)@.len(),
            final(self)@[index@ as int] == *final(result),
            forall|p: int|
                0 <= p < old(self)@.len() && p != index@ ==> #[trigger] final(self)@[p]
                    == old(self)@[p],
            forall|i: Index<Name>| old(self).admits(i) ==> #[trigger] final(self).admits(i),
    {
        &mut self.inner[*index]
    }

    /// Reserves capacity for at least `additional` more elements. The capacity
    /// asked for must not take more than `isize::MAX` bytes. Capacity is no
    /// part of the view: the elements stay as they are.
    pub fn reserve(&mut self, additional: usize)
        requires
            old(self)@.len() + additional <= usize::MAX,
            (old(self)@.len() + additional) * size_of::<A>() <= isize::MAX,
        ensures
            final(self)@ == old(self)@,
            forall|i: Index<Name>| old(self).admits(i) ==> #[trigger] final(self).admits(i),
    {
        self.inner.reserve(additional);
    }

    /// Reserves capacity for exactly `additional` more elements. The capacity
    /// asked for must not take more than `isize::MAX` bytes. Capacity is no
    /// part of the view: the elements stay as they are.
    pub fn reserve_exact(&mut self, additional: usize)
        requires
            old(self)@.len() + additional <= usize::MAX,
            (old(self)@.len() + additional) * size_of::<A>() <= isize::MAX,
        ensures
            final(self)@ == old(self)@,
            forall|i: Index<Name>| old(self).admits(i) ==> #[trigger] final(self).admits(i),
    {
        vec_reserve_exact(&mut self.inner, additional);
    }

    /// Gives back spare capacity. Capacity is no part of the view: the
    /// elements stay as they are, and so does the length.
    pub fn shrink_to_fit(&mut self)
        ensures
            final(self)@ == old(self)@,
            forall|i: Index<Name>| old(self).admits(i) ==> #[trigger] final(self).admits(i),
    {
        vec_shrink_to_fit(&mut self.inner);
    }

    /// The whole vector as a mutable slice, for writes in bulk. What the slice
    /// holds when the caller lets go of it is what the vector holds from then
    /// on.
    pub fn as_mut_slice(&mut self) -> (result: &mut [A])
        ensures
            result@ == old(self)@,
            final(self)@ == final(result)@,
    {
        self.inner.as_mut_slice()
    }

    /// Inserts `element` at position `index` and moves every element from
    /// there on one position up.
    pub fn insert(&mut self, index: usize, element: A)
        requires
            index <= old(self)@.len(),
        ensures
            final(self)@ == old(self)@.insert(index as int, element),
            final(self)@ == Growth::Insert(index as int, element).apply(old(self)@),
            final(self)@.len() == old(self)@.len() + 1,
            final(self)@[index as int] == element,
            forall|p: int| 0 <= p < index ==> #[trigger] final(self)@[p] == old(self)@[p],
            forall|p: int|
                index <= p < old(self)@.len() ==> final(self)@[p + 1] == #[trigger] old(self)@[p],
            forall|i: Index<Name>| old(self).admits(i) ==> #[trigger] final(self).admits(i),
    {
        self.inner.insert(index, element)
    }

    /// Appends `value` after the last element.
    pub fn push(&mut self, value: A)
        ensures
            final(self)@ == old(self)@.push(value),
            final(self)@ == Growth::Push(value).apply(old(self)@),
            final(self)@.len() == old(self)@.len() + 1,
            final(self)@[old(self)@.len() as int] == value,
            forall|p: int| 0 <= p < old(self)@.len() ==> #[trigger] final(self)@[p] == old(self)@[p],
            forall|i: Index<Name>| old(self).admits(i) ==> #[trigger] final(self).admits(i),
    {
        self.inner.push(value);
    }

    /// Moves all elements of `other` to the end of this vector and leaves
    /// `other` empty.
    pub fn append(&mut self, other: &mut Vec<A>)
        ensures
            final(self)@ == old(self)@ + old(other)@,
            final(self)@ == Growth::Append(old(other)@).apply(old(self)@),
            final(self)@.len() == old(self)@.len() + old(other)@.len(),
            forall|p: int| 0 <= p < old(self)@.len() ==> #[trigger] final(self)@[p] == old(self)@[p],
            forall|p: int|
                0 <= p < old(other)@.len() ==> final(self)@[old(self)@.len() + p]
                    == #[trigger] old(other)@[p],
            forall|i: Index<Name>| old(self).admits(i) ==> #[trigger] final(self).admits(i),
            final(other)@ == Seq::<A>::empty(),
    {
        self.inner.append(other);
    }
}

impl<A, Name> Deref for FixedVec<A, Name> {
    type Target = Vec<A>;

    /// Read access to the wrapped vector.
    fn deref(&self) -> (result: &Vec<A>)
        ensures
            result@ == self@,
    {
        &self.inner
    }
}

} // verus!
