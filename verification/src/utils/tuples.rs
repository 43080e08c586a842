//! Channel routing on stereo pairs.

use vstd::prelude::*;

verus! {

/// The pair with its two halves swapped.
pub open spec fn swapped<A, B>(p: (A, B)) -> (B, A) {
    (p.1, p.0)
}

/// Swaps the two halves of a pair (left/right swap).
pub trait Reverse {
    type Output;

    fn reverse(self) -> Self::Output;
}

impl<A, B> Reverse for (A, B) where A: Copy, B: Copy {
    type Output = (B, A);

    fn reverse(self) -> (r: (B, A))
        ensures
            r == swapped(self),
    {
        (self.1, self.0)
    }
}

/// Copies the left half into both halves (solo left).
pub trait FillFromLeft {
    type Output;

    fn fill_from_left(self) -> Self::Output;
}

impl<A, B> FillFromLeft for (A, B) where A: Copy, B: Copy {
    type Output = (A, A);

    fn fill_from_left(self) -> (r: (A, A))
        ensures
            r == (self.0, self.0),
    {
        (self.0, self.0)
    }
}

/// Copies the right half into both halves (solo right).
pub trait FillFromRight {
    type Output;

    fn fill_from_right(self) -> Self::Output;
}

impl<A, B> FillFromRight for (A, B) where A: Copy, B: Copy {
    type Output = (B, B);

    fn fill_from_right(self) -> (r: (B, B))
        ensures
            r == (self.1, self.1),
    {
        (self.1, self.1)
    }
}

/// Swapping twice gives the pair back, and soloing one side of a swapped pair
/// is soloing the other side of the original pair.
pub proof fn lemma_routing<A, B>(p: (A, B))
    ensures
        swapped(swapped(p)) == p,
        (swapped(p).0, swapped(p).0) == (p.1, p.1),
        (swapped(p).1, swapped(p).1) == (p.0, p.0),
{
}

} // verus!
