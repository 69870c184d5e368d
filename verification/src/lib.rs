//! Community invite polls: members petition to invite a new user, other
//! members vote through buttons, and an expired poll is tallied against the
//! community's quorum rule, with a single opposing vote acting as a veto.
//!
//! The crate holds the poll lifecycle engine: poll identifiers and their
//! text encoding, the vote ledger with one live vote per voter, the
//! resolution rule, the one-way close transition, and the decisions of the
//! background sweep that drives expired polls through resolution.

pub mod action;
pub mod background_poll_handler;
pub mod codec;
pub mod entities;
pub mod error;
pub mod ids;
pub mod settings;
pub mod text;
pub mod util;

pub use entities::InvitePollOutcome;
pub use entities::InvitePollVote;
pub use error::Error;
pub use ids::ChannelId;
pub use ids::GuildId;
pub use ids::MessageId;
pub use ids::UserId;
