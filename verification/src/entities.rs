//! The rows the relational store persists, and the store model they live in.

use vstd::prelude::*;

pub mod guild;
pub mod invite_poll;
pub mod invite_poll_vote_count;
pub mod invite_poll_vote_submission;
pub mod invite_poll_with_vote_count;
pub mod store;

pub use guild::Guild;
pub use invite_poll::InvitePoll;
pub use invite_poll::InvitePollId;
pub use invite_poll_vote_count::InvitePollCount;
pub use invite_poll_vote_submission::InvitePollVoteSubmission;
pub use invite_poll_with_vote_count::InvitePollWithVoteCount;
pub use store::Store;

verus! {

/// The terminal decision of a poll.
#[derive(Clone, Copy, Debug, PartialEq, Eq, Structural)]
pub enum InvitePollOutcome {
    Allow,
    Deny,
}

/// A voter's stance. The model is deliberately two-way: a single `No` vetoes
/// the petition, so a third, non-committal option has no place in the rule.
#[derive(Clone, Copy, Debug, PartialEq, Eq, Structural)]
pub enum InvitePollVote {
    Yes,
    No,
}

} // verus!
