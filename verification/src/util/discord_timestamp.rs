//! The chat platform's inline timestamp markup.

use vstd::prelude::*;
use crate::text::dec_str_signed;
use crate::text::i64_to_string;

verus! {

/// How the platform renders an inline timestamp.
#[derive(Clone, Copy, Debug, PartialEq, Eq, Structural)]
pub enum DiscordTimestampStyle {
    FullLong,
    FullShort,
    DateLong,
    DateShort,
    TimeLong,
    TimeShort,
    Relative,
}

/// The style letter of the timestamp markup.
pub open spec fn style_char(style: DiscordTimestampStyle) -> char {
    match style {
        DiscordTimestampStyle::FullLong => 'F',
        DiscordTimestampStyle::FullShort => 'f',
        DiscordTimestampStyle::DateLong => 'D',
        DiscordTimestampStyle::DateShort => 'd',
        DiscordTimestampStyle::TimeLong => 'T',
        DiscordTimestampStyle::TimeShort => 't',
        DiscordTimestampStyle::Relative => 'R',
    }
}

/// The markup for a moment in time: `<t:SECONDS:STYLE>`.
pub open spec fn timestamp_text(seconds: i64, style: DiscordTimestampStyle) -> Seq<char> {
    "<t:"@ + dec_str_signed(seconds as int) + ":"@ + seq![style_char(style)] + ">"@
}

/// A moment in time, as seconds since the epoch, with the style it is
/// shown in.
#[derive(Clone, Copy, Debug, PartialEq, Eq, Structural)]
pub struct DiscordTimestamp(pub i64, pub DiscordTimestampStyle);

impl DiscordTimestamp {
    /// A timestamp from its epoch seconds.
    pub fn new(seconds: i64, style: DiscordTimestampStyle) -> (r: DiscordTimestamp)
        ensures
            r == (DiscordTimestamp(seconds, style)),
    {
        DiscordTimestamp(seconds, style)
    }

    /// The same moment under another style.
    pub fn with_style(&self, style: DiscordTimestampStyle) -> (r: DiscordTimestamp)
        ensures
            r == (DiscordTimestamp(self.0, style)),
    {
        DiscordTimestamp(self.0, style)
    }

    /// The markup as sent to the platform.
    pub fn to_string(&self) -> (r: String)
        ensures
            r@ == timestamp_text(self.0, self.1),
    {
        let letter: &str = match self.1 {
            DiscordTimestampStyle::FullLong => "F",
            DiscordTimestampStyle::FullShort => "f",
            DiscordTimestampStyle::DateLong => "D",
            DiscordTimestampStyle::DateShort => "d",
            DiscordTimestampStyle::TimeLong => "T",
            DiscordTimestampStyle::TimeShort => "t",
            DiscordTimestampStyle::Relative => "R",
        };
        proof {
            reveal_strlit("F");
            reveal_strlit("f");
            reveal_strlit("D");
            reveal_strlit("d");
            reveal_strlit("T");
            reveal_strlit("t");
            reveal_strlit("R");
        }
        let mut r = String::from_str("<t:");
        let seconds = i64_to_string(self.0);
        r.append(seconds.as_str());
        r.append(":");
        r.append(letter);
        r.append(">");
        proof {
            assert(r@ =~= timestamp_text(self.0, self.1));
        }
        r
    }
}

} // verus!
