//! Decimal rendering of numbers and small string helpers.

use vstd::prelude::*;

verus! {

/// The character of the decimal digit `d`.
pub open spec fn dec_digit(d: int) -> char
    recommends
        0 <= d < 10,
{
    ((48 + d) as u32) as char
}

/// The decimal text of `n`, without sign and without leading zeros (the
/// number zero is the single character `0`).
pub open spec fn dec_str(n: nat) -> Seq<char>
    decreases n,
{
    if n < 10 {
        seq![dec_digit(n as int)]
    } else {
        dec_str(n / 10).push(dec_digit((n % 10) as int))
    }
}

/// The decimal text of `v`, with a leading minus sign when negative.
pub open spec fn dec_str_signed(v: int) -> Seq<char> {
    if v < 0 {
        seq!['-'] + dec_str((-v) as nat)
    } else {
        dec_str(v as nat)
    }
}

/// The characters of an optional string.
pub open spec fn opt_text(m: Option<String>) -> Option<Seq<char>> {
    match m {
        Some(s) => Some(s@),
        None => None,
    }
}

/// Whether two string slices hold the same characters.
pub fn str_eq(a: &str, b: &str) -> (r: bool)
    ensures
        r == (a@ == b@),
{
    let owned_a: String = a.to_owned();
    let owned_b: String = b.to_owned();
    owned_a == owned_b
}

fn digit_str(d: u64) -> (r: &'static str)
    requires
        d < 10,
    ensures
        r@ == seq![dec_digit(d as int)],
{
    proof {
        reveal_strlit("0");
        reveal_strlit("1");
        reveal_strlit("2");
        reveal_strlit("3");
        reveal_strlit("4");
        reveal_strlit("5");
        reveal_strlit("6");
        reveal_strlit("7");
        reveal_strlit("8");
        reveal_strlit("9");
        assert('0' as u32 == 48 && '1' as u32 == 49 && '2' as u32 == 50 && '3' as u32 == 51
            && '4' as u32 == 52 && '5' as u32 == 53 && '6' as u32 == 54 && '7' as u32 == 55
            && '8' as u32 == 56 && '9' as u32 == 57);
    }
    if d == 0 {
        "0"
    } else if d == 1 {
        "1"
    } else if d == 2 {
        "2"
    } else if d == 3 {
        "3"
    } else if d == 4 {
        "4"
    } else if d == 5 {
        "5"
    } else if d == 6 {
        "6"
    } else if d == 7 {
        "7"
    } else if d == 8 {
        "8"
    } else {
        "9"
    }
}

/// The decimal text of `n`.
pub fn u64_to_string(n: u64) -> (r: String)
    ensures
        r@ == dec_str(n as nat),
    decreases n,
{
    let last = digit_str(n % 10);
    if n < 10 {
        String::from_str(last)
    } else {
        let mut r = u64_to_string(n / 10);
        r.append(last);
        proof {
            assert(r@ =~= dec_str(n as nat));
        }
        r
    }
}

/// The decimal text of `n`, for values wider than a machine word.
pub fn u128_to_string(n: u128) -> (r: String)
    ensures
        r@ == dec_str(n as nat),
    decreases n,
{
    let last = digit_str((n % 10) as u64);
    if n < 10 {
        String::from_str(last)
    } else {
        let mut r = u128_to_string(n / 10);
        r.append(last);
        proof {
            assert(r@ =~= dec_str(n as nat));
        }
        r
    }
}

/// The decimal text of `v`, with a minus sign when negative.
pub fn i64_to_string(v: i64) -> (r: String)
    ensures
        r@ == dec_str_signed(v as int),
{
    if v >= 0 {
        let r = u64_to_string(v as u64);
        r
    } else {
        let magnitude: u64 = if v == i64::MIN {
            9223372036854775808u64
        } else {
            (-v) as u64
        };
        assert(magnitude == -(v as int));
        let mut r = String::from_str("-");
        let digits = u64_to_string(magnitude);
        r.append(digits.as_str());
        proof {
            reveal_strlit("-");
            assert(r@ =~= dec_str_signed(v as int));
        }
        r
    }
}

/// Whether `s` begins with `p`.
pub open spec fn starts_with(s: Seq<char>, p: Seq<char>) -> bool {
    p.len() <= s.len() && s.subrange(0, p.len() as int) == p
}

/// Whether `c` is a decimal digit.
pub open spec fn is_dec_digit(c: char) -> bool {
    48 <= c as u32 <= 57
}

/// The value of the decimal digit `c`.
pub open spec fn digit_val(c: char) -> int {
    c as u32 - 48
}

/// The number the digit characters of `s` spell, most significant first.
pub open spec fn digits_val(s: Seq<char>) -> int
    decreases s.len(),
{
    if s.len() == 0 {
        0
    } else {
        digits_val(s.drop_last()) * 10 + digit_val(s.last())
    }
}

/// Whether every character of `s` is a decimal digit.
pub open spec fn all_dec_digits(s: Seq<char>) -> bool {
    forall|i: int| 0 <= i < s.len() ==> is_dec_digit(#[trigger] s[i])
}

/// How many characters of `s` are decimal digits.
pub open spec fn count_dec_digits(s: Seq<char>) -> nat
    decreases s.len(),
{
    if s.len() == 0 {
        0
    } else {
        count_dec_digits(s.drop_last()) + if is_dec_digit(s.last()) {
            1nat
        } else {
            0nat
        }
    }
}

/// Counts the decimal digit characters of `s`.
pub fn count_digits(s: &str) -> (r: usize)
    ensures
        r == count_dec_digits(s@),
{
    let n = s.unicode_len();
    let mut count: usize = 0;
    proof {
        assert(s@.take(0) =~= Seq::<char>::empty());
    }
    for i in 0..n
        invariant
            n == s@.len(),
            count == count_dec_digits(s@.take(i as int)),
            count <= i,
    {
        let c = s.get_char(i);
        let u = c as u32;
        if 48 <= u && u <= 57 {
            count = count + 1;
        }
        proof {
            let pre = s@.take(i as int);
            let post = s@.take(i as int + 1);
            assert(post.drop_last() =~= pre);
            assert(post.last() == s@[i as int]);
        }
    }
    proof {
        assert(s@.take(n as int) =~= s@);
    }
    count
}

/// The number `s` denotes: an optional leading plus sign, then at least
/// one digit, and a value that fits.
pub open spec fn str_to_u64(s: Seq<char>) -> Option<u64> {
    let digits = if s.len() > 0 && s[0] == '+' {
        s.skip(1)
    } else {
        s
    };
    if digits.len() > 0 && all_dec_digits(digits) && digits_val(digits) <= u64::MAX {
        Some(digits_val(digits) as u64)
    } else {
        None
    }
}

/// Digit strings denote nothing negative.
pub proof fn lemma_digits_val_nonneg(s: Seq<char>)
    requires
        all_dec_digits(s),
    ensures
        digits_val(s) >= 0,
    decreases s.len(),
{
    if s.len() > 0 {
        assert(is_dec_digit(s[s.len() - 1]));
        lemma_digits_val_nonneg(s.drop_last());
    }
}

/// A digit string never denotes less than any of its prefixes.
pub proof fn lemma_digits_val_prefix(s: Seq<char>, j: int)
    requires
        all_dec_digits(s),
        0 <= j <= s.len(),
    ensures
        digits_val(s.take(j)) <= digits_val(s),
    decreases s.len() - j,
{
    if j == s.len() {
        assert(s.take(j) =~= s);
    } else {
        assert(s.take(j + 1).drop_last() =~= s.take(j));
        assert(s.take(j + 1).last() == s[j]);
        assert(all_dec_digits(s.take(j))) by {
            assert(forall|k: int| 0 <= k < j ==> s.take(j)[k] == s[k]);
        }
        lemma_digits_val_nonneg(s.take(j));
        assert(is_dec_digit(s[j]));
        assert(digits_val(s.take(j)) <= digits_val(s.take(j + 1)));
        lemma_digits_val_prefix(s, j + 1);
    }
}

/// Reads a number out of a command option's text: an optional leading
/// plus sign, then decimal digits; rejects anything else, an empty run of
/// digits, and a value that does not fit.
pub fn parse_u64(s: &str) -> (r: Option<u64>)
    ensures
        r == str_to_u64(s@),
{
    let n = s.unicode_len();
    let offset: usize = if n > 0 && s.get_char(0) == '+' {
        1
    } else {
        0
    };
    let ghost digits = if offset == 1 {
        s@.skip(1)
    } else {
        s@
    };
    proof {
        assert(forall|k: int| 0 <= k < digits.len() ==> digits[k] == s@[k + offset]);
    }
    if n == offset {
        return None;
    }
    let mut acc: u64 = 0;
    let mut i: usize = offset;
    while i < n
        invariant
            offset <= i <= n,
            offset <= 1,
            n == s@.len(),
            (offset == 1) <==> (s@.len() > 0 && s@[0] == '+'),
            digits == (if offset == 1 {
                s@.skip(1)
            } else {
                s@
            }),
            digits.len() == n - offset,
            forall|k: int| 0 <= k < digits.len() ==> digits[k] == s@[k + offset],
            all_dec_digits(digits.take(i - offset)),
            acc == digits_val(digits.take(i - offset)),
        decreases n - i,
    {
        let c = s.get_char(i);
        let u = c as u32;
        if u < 48 || u > 57 {
            proof {
                assert(digits[i - offset] == s@[i as int]);
                assert(!is_dec_digit(digits[i - offset]));
            }
            return None;
        }
        let d = (u - 48) as u64;
        assert(d < 10);
        if acc > (u64::MAX - d) / 10 {
            proof {
                let j = i - offset;
                assert(digits.take(j + 1).drop_last() =~= digits.take(j as int));
                assert(digits.take(j + 1).last() == digits[j]);
                assert(digits[j] == s@[i as int]);
                let md = (u64::MAX - d) as int;
                vstd::arithmetic::div_mod::lemma_fundamental_div_mod(md, 10);
                assert(md == 10 * (md / 10) + md % 10);
                assert(0 <= md % 10 < 10);
                assert(10 * acc + d > u64::MAX);
                assert(digits_val(digits.take(j + 1)) > u64::MAX);
                if all_dec_digits(digits) {
                    lemma_digits_val_prefix(digits, j + 1);
                    assert(digits_val(digits) > u64::MAX);
                }
            }
            return None;
        }
        proof {
            let md = (u64::MAX - d) as int;
            vstd::arithmetic::div_mod::lemma_fundamental_div_mod(md, 10);
            assert(md == 10 * (md / 10) + md % 10);
            assert(0 <= md % 10 < 10);
            assert(10 * acc + d <= u64::MAX);
            let j = i - offset;
            assert(digits.take(j + 1).drop_last() =~= digits.take(j as int));
            assert(digits.take(j + 1).last() == digits[j]);
            assert(digits[j] == s@[i as int]);
        }
        acc = acc * 10 + d;
        i = i + 1;
    }
    proof {
        assert(digits.take(n - offset) =~= digits);
    }
    Some(acc)
}

} // verus!
