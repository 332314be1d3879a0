//! Joining two operations that run side by side: the join succeeds when
//! both have, and fails as soon as one does.

use crate::error::Failure;
use vstd::prelude::*;

verus! {

/// One of the two operations of a join.
#[derive(Debug, Clone, Copy, PartialEq, Eq, Structural)]
pub enum Side {
    Left,
    Right,
}

/// A join of two operations, with results of type `A` and `B`.
#[derive(Debug)]
pub enum Join<A, B> {
    /// No failure so far; the results that have come in.
    Pending { left: Option<A>, right: Option<B> },
    /// Both operations have succeeded.
    Done(A, B),
    /// One operation has failed: the join has failed with it, whatever the
    /// other one does.
    Failed(Failure),
}

impl<A, B> Join<A, B> {
    /// The join after the left operation has ended with `outcome`.
    pub open spec fn after_left(self, outcome: Result<A, Failure>) -> Self {
        match self {
            Join::Pending { left: None, right } => match outcome {
                Err(failure) => Join::Failed(failure),
                Ok(value) => match right {
                    Some(other) => Join::Done(value, other),
                    None => Join::Pending { left: Some(value), right: None },
                },
            },
            other => other,
        }
    }

    /// The join after the right operation has ended with `outcome`.
    pub open spec fn after_right(self, outcome: Result<B, Failure>) -> Self {
        match self {
            Join::Pending { left, right: None } => match outcome {
                Err(failure) => Join::Failed(failure),
                Ok(value) => match left {
                    Some(other) => Join::Done(other, value),
                    None => Join::Pending { left: None, right: Some(value) },
                },
            },
            other => other,
        }
    }

    /// Whether the join has come to its result, so that nothing more is
    /// waited for.
    pub open spec fn is_settled(self) -> bool {
        self is Done || self is Failed
    }

    /// A join of two operations that have both just started.
    pub fn new() -> (join: Self)
        ensures
            join == (Join::<A, B>::Pending { left: None, right: None }),
    {
        Join::Pending { left: None, right: None }
    }

    /// Takes in the end of the left operation. A failure settles the join
    /// at once; a report that comes after the join is settled, or a second
    /// one from the same side, changes nothing.
    pub fn on_left(self, outcome: Result<A, Failure>) -> (next: Self)
        ensures
            next == self.after_left(outcome),
    {
        match self {
            Join::Pending { left: None, right } => match outcome {
                Err(failure) => Join::Failed(failure),
                Ok(value) => match right {
                    Some(other) => Join::Done(value, other),
                    None => Join::Pending { left: Some(value), right: None },
                },
            },
            other => other,
        }
    }

    /// Takes in the end of the right operation, as `on_left` does for the
    /// left one.
    pub fn on_right(self, outcome: Result<B, Failure>) -> (next: Self)
        ensures
            next == self.after_right(outcome),
    {
        match self {
            Join::Pending { left, right: None } => match outcome {
                Err(failure) => Join::Failed(failure),
                Ok(value) => match left {
                    Some(other) => Join::Done(other, value),
                    None => Join::Pending { left: None, right: Some(value) },
                },
            },
            other => other,
        }
    }

    /// Whether the join has come to its result.
    pub fn settled(&self) -> (settled: bool)
        ensures
            settled == self.is_settled(),
    {
        match self {
            Join::Pending { .. } => false,
            _ => true,
        }
    }

    /// The result of a settled join.
    pub fn into_result(self) -> (result: Option<Result<(A, B), Failure>>)
        ensures
            result == match self {
                Join::Pending { .. } => None::<Result<(A, B), Failure>>,
                Join::Done(a, b) => Some(Ok((a, b))),
                Join::Failed(failure) => Some(Err(failure)),
            },
    {
        match self {
            Join::Pending { .. } => None,
            Join::Done(a, b) => Some(Ok((a, b))),
            Join::Failed(failure) => Some(Err(failure)),
        }
    }
}

/// Fail-fast: when one of two joined operations fails while the other has
/// not reported, the join is settled with that failure at once, and
/// whatever the other operation reports later leaves it so.
pub proof fn lemma_join_fails_fast<A, B>(
    failure: Failure,
    later_left: Result<A, Failure>,
    later_right: Result<B, Failure>,
)
    ensures
        ({
            let fresh = Join::<A, B>::Pending { left: None, right: None };
            &&& fresh.after_left(Err(failure)) == Join::<A, B>::Failed(failure)
            &&& fresh.after_right(Err(failure)) == Join::<A, B>::Failed(failure)
            &&& fresh.after_left(Err(failure)).is_settled()
            &&& fresh.after_right(Err(failure)).is_settled()
            &&& fresh.after_left(Err(failure)).after_right(later_right) == Join::<A, B>::Failed(
                failure,
            )
            &&& fresh.after_right(Err(failure)).after_left(later_left) == Join::<A, B>::Failed(
                failure,
            )
        }),
{
}

/// A failure also settles a join whose other side has already succeeded,
/// and a join succeeds only when both sides have.
pub proof fn lemma_join_needs_both<A, B>(
    join: Join<A, B>,
    left: Result<A, Failure>,
    right: Result<B, Failure>,
)
    requires
        join == (Join::<A, B>::Pending { left: None, right: None }),
    ensures
        join.after_left(left).after_right(right) is Done <==> left is Ok && right is Ok,
        join.after_right(right).after_left(left) is Done <==> left is Ok && right is Ok,
        left is Err ==> join.after_left(left).after_right(right) == Join::<A, B>::Failed(
            left->Err_0,
        ),
        right is Err ==> join.after_right(right).after_left(left) == Join::<A, B>::Failed(
            right->Err_0,
        ),
{
}

} // verus!
