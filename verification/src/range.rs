use crate::index::Index;
use std::marker::PhantomData;
use std::ops::Range;
use vstd::prelude::*;

verus! {

/// A half-open interval of positions that was checked as a whole against the
/// vector carrying the brand `Name`, and a cursor over it.
///
/// Stepping through the range hands out one [`Index`] per position, in
/// ascending order, without checking any of them again.
pub struct CheckedRange<Name> {
    range: Range<usize>,
    _phantom: PhantomData<Name>,
}

impl<Name> CheckedRange<Name> {
    /// The next position the range will hand out, if any is left.
    pub closed spec fn start(&self) -> usize {
        self.range.start
    }

    /// The position just past the last one the range covers.
    pub closed spec fn end(&self) -> usize {
        self.range.end
    }

    /// The positions still to come, in the order in which they are handed out.
    pub open spec fn remaining(&self) -> Seq<usize> {
        Seq::new(
            if self.start() < self.end() {
                (self.end() - self.start()) as nat
            } else {
                0
            },
            |i: int| (self.start() + i) as usize,
        )
    }

    /// A range over `[start, end)` has `end - start` positions to hand out,
    /// none if `end` is not above `start`. They count up from `start` one by
    /// one, so they are strictly increasing and all below `end`.
    pub proof fn lemma_remaining_ascends(self)
        ensures
            self.remaining().len() == if self.start() < self.end() {
                self.end() - self.start()
            } else {
                0
            },
            forall|k: int|
                0 <= k < self.remaining().len() ==> #[trigger] self.remaining()[k] == self.start()
                    + k,
            forall|k: int|
                0 <= k < self.remaining().len() ==> #[trigger] self.remaining()[k] < self.end(),
            forall|j: int, k: int|
                0 <= j < k < self.remaining().len() ==> self.remaining()[j]
                    < self.remaining()[k],
    {
    }

    /// Two ranges over the same interval hand out the same positions in the
    /// same order, so a clone starts the walk afresh.
    pub proof fn lemma_same_interval_same_walk(self, other: Self)
        requires
            self.start() == other.start(),
            self.end() == other.end(),
        ensures
            self.remaining() == other.remaining(),
    {
    }

    /// Brands `range` with `Name`. Only the vector calls this, after checking
    /// the range's end against its own length.
    pub(crate) fn new(range: Range<usize>) -> (result: Self)
        ensures
            result.start() == range.start,
            result.end() == range.end,
    {
        CheckedRange { range, _phantom: PhantomData }
    }

    /// Hands out the index at the cursor and moves the cursor one position up,
    /// or returns `None` once the cursor has reached the end.
    pub fn next(&mut self) -> (result: Option<Index<Name>>)
        ensures
            result is Some <==> old(self).remaining().len() > 0,
            result is Some ==> result.unwrap()@ == old(self).remaining()[0],
            result is Some ==> result.unwrap()@ == old(self).start() < old(self).end(),
            result is Some ==> final(self).start() == old(self).start() + 1,
            result is None ==> final(self).start() == old(self).start(),
            final(self).end() == old(self).end(),
            final(self).remaining() == if result is Some {
                old(self).remaining().drop_first()
            } else {
                old(self).remaining()
            },
    {
        if self.range.start >= self.range.end {
            None
        } else {
            let tmp = Index::new(self.range.start);
            self.range.start += 1;
            proof {
                assert(final(self).remaining() =~= old(self).remaining().drop_first());
            }
            Some(tmp)
        }
    }

    /// All indices still to come, in ascending order. The range itself is
    /// left as it is: the walk runs on a clone.
    pub fn indices(&self) -> (result: Vec<Index<Name>>)
        ensures
            result@.len() == self.remaining().len(),
            forall|k: int| 0 <= k < result@.len() ==> (#[trigger] result@[k])@ == self.remaining()[k],
    {
        let mut out: Vec<Index<Name>> = Vec::new();
        let mut cursor = self.clone();
        loop
            invariant
                cursor.remaining() == self.remaining().skip(out@.len() as int),
                out@.len() <= self.remaining().len(),
                forall|k: int| 0 <= k < out@.len() ==> (#[trigger] out@[k])@ == self.remaining()[k],
            ensures
                out@.len() == self.remaining().len(),
            decreases cursor.remaining().len(),
        {
            match cursor.next() {
                Some(index) => {
                    out.push(index);
                    proof {
                        assert(cursor.remaining() =~= self.remaining().skip(out@.len() as int));
                    }
                },
                None => {
                    break ;
                },
            }
        }
        out
    }
}

impl<Name> Clone for CheckedRange<Name> {
    /// A clone covers the same interval and has a cursor of its own.
    fn clone(&self) -> (result: Self)
        ensures
            result == *self,
    {
        CheckedRange {
            range: Range { start: self.range.start, end: self.range.end },
            _phantom: PhantomData,
        }
    }
}

} // verus!
