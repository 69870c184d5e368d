//! The textual progress bar shown beside each vote total.

use vstd::prelude::*;
use crate::text::dec_str;
use crate::text::u128_to_string;
use crate::text::u64_to_string;

verus! {

/// `s` repeated `n` times.
pub open spec fn repeat_text(s: Seq<char>, n: int) -> Seq<char>
    decreases n,
{
    if n <= 0 {
        Seq::empty()
    } else {
        repeat_text(s, n - 1) + s
    }
}

/// The blocks of the bar: filled blocks for the reached share of the
/// width, empty blocks for the rest.
pub open spec fn bar_body(full: Seq<char>, empty: Seq<char>, nblocks: int, length: int) -> Seq<
    char,
> {
    repeat_text(full, nblocks) + repeat_text(empty, length - nblocks)
}

/// The counts appended after the blocks, as asked for.
pub open spec fn bar_suffix(
    value: u64,
    max: u64,
    percent: int,
    with_count: bool,
    with_percentage: bool,
) -> Seq<char> {
    if with_count && with_percentage {
        " ["@ + dec_str(value as nat) + "/"@ + dec_str(max as nat) + " \u{b7} "@ + dec_str(
            percent as nat,
        ) + "%]"@
    } else if with_count {
        " ["@ + dec_str(value as nat) + "/"@ + dec_str(max as nat) + "]"@
    } else if with_percentage {
        " ["@ + dec_str(percent as nat) + "%]"@
    } else {
        Seq::empty()
    }
}

/// The whole bar: the share of `value` in `max` — an empty maximum counts
/// as one — scaled to `length` blocks, rounded down, then the requested
/// counts.
pub open spec fn bar_text(
    value: u64,
    max: u64,
    length: u64,
    empty: Seq<char>,
    full: Seq<char>,
    with_count: bool,
    with_percentage: bool,
) -> Seq<char> {
    let m: int = if max == 0 {
        1
    } else {
        max as int
    };
    let nblocks = (value as int * length as int) / m;
    let percent = (value as int * 100) / m;
    bar_body(full, empty, nblocks, length as int) + bar_suffix(
        value,
        max,
        percent,
        with_count,
        with_percentage,
    )
}

/// A progress bar with its value, range, width, symbols and suffixes.
#[derive(Debug)]
pub struct ProgressBar {
    pub value: u64,
    pub max: u64,
    pub length: u64,
    pub empty_symbol: String,
    pub full_symbol: String,
    pub with_count: bool,
    pub with_percentage: bool,
}

/// Why a [`ProgressBarBuilder`] could not build: a field without a value
/// or a default.
#[derive(Debug)]
pub struct ProgressBarBuilderError {
    pub field: String,
}

/// Collects the fields of a [`ProgressBar`]; only the value and the
/// maximum have no default.
#[derive(Debug)]
pub struct ProgressBarBuilder {
    pub value: Option<u64>,
    pub max: Option<u64>,
    pub length: Option<u64>,
    pub empty_symbol: Option<String>,
    pub full_symbol: Option<String>,
    pub with_count: Option<bool>,
    pub with_percentage: Option<bool>,
}

impl ProgressBarBuilder {
    pub fn value(&mut self, value: u64)
        ensures
            *final(self) == (ProgressBarBuilder { value: Some(value), ..*old(self) }),
    {
        self.value = Some(value);
    }

    pub fn max(&mut self, max: u64)
        ensures
            *final(self) == (ProgressBarBuilder { max: Some(max), ..*old(self) }),
    {
        self.max = Some(max);
    }

    pub fn length(&mut self, length: u64)
        ensures
            *final(self) == (ProgressBarBuilder { length: Some(length), ..*old(self) }),
    {
        self.length = Some(length);
    }

    pub fn with_count(&mut self, with_count: bool)
        ensures
            *final(self) == (ProgressBarBuilder { with_count: Some(with_count), ..*old(self) }),
    {
        self.with_count = Some(with_count);
    }

    pub fn with_percentage(&mut self, with_percentage: bool)
        ensures
            *final(self) == (ProgressBarBuilder {
                with_percentage: Some(with_percentage),
                ..*old(self)
            }),
    {
        self.with_percentage = Some(with_percentage);
    }

    /// A bar from the collected fields; the width defaults to ten blocks,
    /// the symbols to light and full shade, the suffixes to off. Fails on
    /// a missing value or maximum.
    pub fn build(&self) -> (r: Result<ProgressBar, ProgressBarBuilderError>)
        ensures
            match r {
                Ok(b) => {
                    &&& self.value is Some
                    &&& self.max is Some
                    &&& b.value == self.value.unwrap()
                    &&& b.max == self.max.unwrap()
                    &&& b.length == (match self.length {
                        Some(l) => l,
                        None => 10u64,
                    })
                    &&& b.empty_symbol@ == (match self.empty_symbol {
                        Some(s) => s@,
                        None => "\u{2591}"@,
                    })
                    &&& b.full_symbol@ == (match self.full_symbol {
                        Some(s) => s@,
                        None => "\u{2588}"@,
                    })
                    &&& b.with_count == (match self.with_count {
                        Some(v) => v,
                        None => false,
                    })
                    &&& b.with_percentage == (match self.with_percentage {
                        Some(v) => v,
                        None => false,
                    })
                },
                Err(e) => {
                    &&& self.value is None || self.max is None
                    &&& e.field@ == (if self.value is None {
                        "value"@
                    } else {
                        "max"@
                    })
                },
            },
    {
        let value = match &self.value {
            Some(v) => *v,
            None => {
                return Err(ProgressBarBuilderError { field: String::from_str("value") });
            },
        };
        let max = match &self.max {
            Some(v) => *v,
            None => {
                return Err(ProgressBarBuilderError { field: String::from_str("max") });
            },
        };
        let length = match &self.length {
            Some(v) => *v,
            None => 10,
        };
        let empty_symbol = match &self.empty_symbol {
            Some(s) => String::from_str(s.as_str()),
            None => String::from_str("\u{2591}"),
        };
        let full_symbol = match &self.full_symbol {
            Some(s) => String::from_str(s.as_str()),
            None => String::from_str("\u{2588}"),
        };
        let with_count = match &self.with_count {
            Some(v) => *v,
            None => false,
        };
        let with_percentage = match &self.with_percentage {
            Some(v) => *v,
            None => false,
        };
        Ok(
            ProgressBar {
                value,
                max,
                length,
                empty_symbol,
                full_symbol,
                with_count,
                with_percentage,
            },
        )
    }
}

impl ProgressBar {
    /// A builder with nothing set.
    pub fn builder() -> (r: ProgressBarBuilder)
        ensures
            r.value is None,
            r.max is None,
            r.length is None,
            r.empty_symbol is None,
            r.full_symbol is None,
            r.with_count is None,
            r.with_percentage is None,
    {
        ProgressBarBuilder {
            value: None,
            max: None,
            length: None,
            empty_symbol: None,
            full_symbol: None,
            with_count: None,
            with_percentage: None,
        }
    }

    /// The bar as shown to users.
    pub fn to_string(&self) -> (r: String)
        ensures
            r@ == bar_text(
                self.value,
                self.max,
                self.length,
                self.empty_symbol@,
                self.full_symbol@,
                self.with_count,
                self.with_percentage,
            ),
    {
        let m: u64 = if self.max == 0 {
            1
        } else {
            self.max
        };
        proof {
            assert(self.value as int * self.length as int <= u128::MAX) by (nonlinear_arith)
                requires
                    self.value <= 0xFFFFFFFFFFFFFFFFu64,
                    self.length <= 0xFFFFFFFFFFFFFFFFu64,
            ;
        }
        let nblocks: u128 = (self.value as u128) * (self.length as u128) / (m as u128);
        let mut r = String::new();
        let mut i: u128 = 0;
        while i < nblocks
            invariant
                i <= nblocks,
                r@ == repeat_text(self.full_symbol@, i as int),
            decreases nblocks - i,
        {
            r.append(self.full_symbol.as_str());
            i = i + 1;
        }
        let mut j: u128 = nblocks;
        while j < (self.length as u128)
            invariant
                nblocks <= j,
                j <= self.length || j == nblocks,
                r@ == repeat_text(self.full_symbol@, nblocks as int) + repeat_text(
                    self.empty_symbol@,
                    j - nblocks,
                ),
            decreases (self.length as u128) - j,
        {
            r.append(self.empty_symbol.as_str());
            j = j + 1;
        }
        proof {
            assert(r@ =~= bar_body(
                self.full_symbol@,
                self.empty_symbol@,
                nblocks as int,
                self.length as int,
            ));
        }
        let percent: u128 = (self.value as u128) * 100 / (m as u128);
        if self.with_count && self.with_percentage {
            r.append(" [");
            let value_text = u64_to_string(self.value);
            r.append(value_text.as_str());
            r.append("/");
            let max_text = u64_to_string(self.max);
            r.append(max_text.as_str());
            r.append(" \u{b7} ");
            let percent_text = u128_to_string(percent);
            r.append(percent_text.as_str());
            r.append("%]");
        } else if self.with_count {
            r.append(" [");
            let value_text = u64_to_string(self.value);
            r.append(value_text.as_str());
            r.append("/");
            let max_text = u64_to_string(self.max);
            r.append(max_text.as_str());
            r.append("]");
        } else if self.with_percentage {
            r.append(" [");
            let percent_text = u128_to_string(percent);
            r.append(percent_text.as_str());
            r.append("%]");
        }
        proof {
            assert(r@ =~= bar_text(
                self.value,
                self.max,
                self.length,
                self.empty_symbol@,
                self.full_symbol@,
                self.with_count,
                self.with_percentage,
            ));
        }
        r
    }
}

} // verus!
