//! Values that carry one of two tags.

use vstd::prelude::*;

verus! {

/// A value that is either a left value or a right value.
#[derive(Clone, Debug, PartialEq, Eq)]
pub enum Either<L, R> {
    /// A left value.
    Left(L),
    /// A right value.
    Right(R),
}

impl<L, R> Either<L, R> {
    /// Whether this is a left value.
    pub fn is_left(&self) -> (left: bool)
        ensures
            left == (self is Left),
    {
        match self {
            Either::Left(_) => true,
            Either::Right(_) => false,
        }
    }

    /// Whether this is a right value.
    pub fn is_right(&self) -> (right: bool)
        ensures
            right == (self is Right),
    {
        !self.is_left()
    }

    /// The left value, if this is one.
    pub fn left(self) -> (left: Option<L>)
        ensures
            left == (match self {
                Either::Left(l) => Some(l),
                Either::Right(_) => None,
            }),
    {
        match self {
            Either::Left(l) => Some(l),
            Either::Right(_) => None,
        }
    }

    /// The right value, if this is one.
    pub fn right(self) -> (right: Option<R>)
        ensures
            right == (match self {
                Either::Left(_) => None,
                Either::Right(r) => Some(r),
            }),
    {
        match self {
            Either::Left(_) => None,
            Either::Right(r) => Some(r),
        }
    }
}

} // verus!
