use std::cmp::Ordering;
use std::marker::PhantomData;
use std::ops::Deref;
use vstd::prelude::*;
use vstd::std_specs::cmp::PartialEqSpecImpl;
use vstd::std_specs::cmp::PartialOrdSpecImpl;

verus! {

/// A position that was checked against the vector carrying the brand `Name`.
///
/// The view of an index is its position.
#[derive(Debug, Hash, Ord)]
pub struct Index<Name> {
    index: usize,
    _phantom: PhantomData<Name>,
}

impl<Name> View for Index<Name> {
    type V = usize;

    closed spec fn view(&self) -> usize {
        self.index
    }
}

impl<Name> Index<Name> {
    /// Brands `index` with `Name`. Only the vector and its ranges hand out
    /// indices, each after its own bounds check.
    pub(crate) fn new(index: usize) -> (result: Self)
        ensures
            result@ == index,
    {
        Index { index, _phantom: PhantomData }
    }
}

impl<Name> Deref for Index<Name> {
    type Target = usize;

    /// The position this index stands for.
    fn deref(&self) -> (result: &usize)
        ensures
            *result == self@,
    {
        &self.index
    }
}

impl<Name> Clone for Index<Name> {
    fn clone(&self) -> (result: Self)
        ensures
            result == *self,
    {
        Index { index: self.index, _phantom: PhantomData }
    }
}

impl<Name> Copy for Index<Name> {}

impl<Name> PartialEq for Index<Name> {
    fn eq(&self, other: &Self) -> (result: bool)
    {
        self.index == other.index
    }
}

impl<Name> PartialEqSpecImpl for Index<Name> {
    open spec fn obeys_eq_spec() -> bool {
        true
    }

    open spec fn eq_spec(&self, other: &Self) -> bool {
        self@ == other@
    }
}

impl<Name> Eq for Index<Name> {}

impl<Name> PartialOrd for Index<Name> {
    fn partial_cmp(&self, other: &Self) -> (result: Option<Ordering>)
    {
        if self.index < other.index {
            Some(Ordering::Less)
        } else if self.index == other.index {
            Some(Ordering::Equal)
        } else {
            Some(Ordering::Greater)
        }
    }
}

impl<Name> PartialOrdSpecImpl for Index<Name> {
    open spec fn obeys_partial_cmp_spec() -> bool {
        true
    }

    open spec fn partial_cmp_spec(&self, other: &Self) -> Option<Ordering> {
        if self@ < other@ {
            Some(Ordering::Less)
        } else if self@ == other@ {
            Some(Ordering::Equal)
        } else {
            Some(Ordering::Greater)
        }
    }
}

} // verus!
