//! Why an operation was refused.

use vstd::prelude::*;

verus! {

/// The reasons for which the service refuses a request.
#[derive(Clone, Copy, Debug, PartialEq, Eq, Structural)]
pub enum Error {
    /// The poll or category that the request names does not exist.
    NotFound,
    /// The vote is not one of -1, 0 and 1.
    InvalidVote,
    /// The poll's expiring date has been reached.
    PollExpired,
    /// The caller has already voted on the poll.
    AlreadyVoted,
}

} // verus!
