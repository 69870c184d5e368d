//! Identifiers of the chat platform's objects, held as their numeric value.

use vstd::prelude::*;
use crate::text::dec_str;
use crate::text::u64_to_string;

verus! {

/// Identifies a community.
#[derive(Clone, Copy, Debug, PartialEq, Eq, Structural, Hash)]
pub struct GuildId(pub u64);

/// Identifies a user.
#[derive(Clone, Copy, Debug, PartialEq, Eq, Structural, Hash)]
pub struct UserId(pub u64);

impl UserId {
    /// The mention markup under which the platform shows the user.
    pub fn to_string(&self) -> (r: String)
        ensures
            r@ == "<@"@ + dec_str(self.0 as nat) + ">"@,
    {
        let mut r = String::from_str("<@");
        let digits = u64_to_string(self.0);
        r.append(digits.as_str());
        r.append(">");
        proof {
            assert(r@ =~= "<@"@ + dec_str(self.0 as nat) + ">"@);
        }
        r
    }
}

/// Identifies a channel.
#[derive(Clone, Copy, Debug, PartialEq, Eq, Structural, Hash)]
pub struct ChannelId(pub u64);

/// Identifies a message.
#[derive(Clone, Copy, Debug, PartialEq, Eq, Structural, Hash)]
pub struct MessageId(pub u64);

} // verus!
