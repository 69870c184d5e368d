//! Text encoding of poll identifiers: standard base64 without padding.
//!
//! The encoding itself is done by an outside crate; this module states what
//! that encoding is, and proves that decoding undoes encoding, so that an
//! identifier shown to users can always be read back.

use vstd::prelude::*;
use base64::Engine;

verus! {

/// The character of the standard alphabet at index `v`: `A`..`Z`, `a`..`z`,
/// `0`..`9`, `+`, `/`.
pub open spec fn b64_char(v: u8) -> char
    recommends
        v < 64,
{
    if v < 26 {
        ((65 + v) as u32) as char
    } else if v < 52 {
        ((71 + v) as u32) as char
    } else if v < 62 {
        ((v - 4) as u32) as char
    } else if v == 62 {
        '+'
    } else {
        '/'
    }
}

/// Whether `c` belongs to the standard alphabet.
pub open spec fn is_b64_char(c: char) -> bool {
    ||| 65 <= c as u32 <= 90
    ||| 97 <= c as u32 <= 122
    ||| 48 <= c as u32 <= 57
    ||| c as u32 == 43
    ||| c as u32 == 47
}

/// The index of `c` in the standard alphabet.
pub open spec fn b64_index(c: char) -> u8
    recommends
        is_b64_char(c),
{
    if 65 <= c as u32 <= 90 {
        (c as u32 - 65) as u8
    } else if 97 <= c as u32 <= 122 {
        (c as u32 - 71) as u8
    } else if 48 <= c as u32 <= 57 {
        (c as u32 + 4) as u8
    } else if c as u32 == 43 {
        62
    } else {
        63
    }
}

/// The four characters encoding a full group of three bytes.
pub open spec fn b64_encode3(a: u8, b: u8, c: u8) -> Seq<char> {
    seq![
        b64_char(a >> 2),
        b64_char(((a & 3) << 4) | (b >> 4)),
        b64_char(((b & 15) << 2) | (c >> 6)),
        b64_char(c & 63),
    ]
}

/// The three characters encoding a final group of two bytes.
pub open spec fn b64_encode2(a: u8, b: u8) -> Seq<char> {
    seq![b64_char(a >> 2), b64_char(((a & 3) << 4) | (b >> 4)), b64_char((b & 15) << 2)]
}

/// The two characters encoding a final group of one byte.
pub open spec fn b64_encode1(a: u8) -> Seq<char> {
    seq![b64_char(a >> 2), b64_char((a & 3) << 4)]
}

/// Standard base64 without padding: bytes are taken three at a time, each
/// group split into 6-bit values read most significant bits first, and a
/// final group of one or two bytes becomes two or three characters whose
/// unused low bits are zero.
pub open spec fn b64_encode(bytes: Seq<u8>) -> Seq<char>
    decreases bytes.len(),
{
    if bytes.len() == 0 {
        Seq::empty()
    } else if bytes.len() == 1 {
        b64_encode1(bytes[0])
    } else if bytes.len() == 2 {
        b64_encode2(bytes[0], bytes[1])
    } else {
        b64_encode3(bytes[0], bytes[1], bytes[2]) + b64_encode(bytes.skip(3))
    }
}

/// The three bytes encoded by a full group of four characters.
pub open spec fn b64_decode4(c0: char, c1: char, c2: char, c3: char) -> Seq<u8>
    recommends
        is_b64_char(c0) && is_b64_char(c1) && is_b64_char(c2) && is_b64_char(c3),
{
    let s0 = b64_index(c0);
    let s1 = b64_index(c1);
    let s2 = b64_index(c2);
    let s3 = b64_index(c3);
    seq![(s0 << 2) | (s1 >> 4), ((s1 & 15) << 4) | (s2 >> 2), ((s2 & 3) << 6) | s3]
}

/// Decoding of unpadded base64. `None` exactly on malformed input: a length
/// that is 1 more than a multiple of 4, a character outside the alphabet, or
/// non-zero unused bits in the final character.
pub open spec fn b64_decode(s: Seq<char>) -> Option<Seq<u8>>
    decreases s.len(),
{
    if s.len() == 0 {
        Some(Seq::empty())
    } else if s.len() == 1 {
        None
    } else if s.len() == 2 {
        if is_b64_char(s[0]) && is_b64_char(s[1]) && b64_index(s[1]) & 15 == 0 {
            Some(seq![(b64_index(s[0]) << 2) | (b64_index(s[1]) >> 4)])
        } else {
            None
        }
    } else if s.len() == 3 {
        if is_b64_char(s[0]) && is_b64_char(s[1]) && is_b64_char(s[2]) && b64_index(s[2]) & 3
            == 0 {
            let s0 = b64_index(s[0]);
            let s1 = b64_index(s[1]);
            let s2 = b64_index(s[2]);
            Some(seq![(s0 << 2) | (s1 >> 4), ((s1 & 15) << 4) | (s2 >> 2)])
        } else {
            None
        }
    } else {
        if is_b64_char(s[0]) && is_b64_char(s[1]) && is_b64_char(s[2]) && is_b64_char(s[3]) {
            match b64_decode(s.skip(4)) {
                Some(rest) => Some(b64_decode4(s[0], s[1], s[2], s[3]) + rest),
                None => None,
            }
        } else {
            None
        }
    }
}

/// Every alphabet index is recovered from its character.
pub proof fn lemma_b64_char_inverse(v: u8)
    requires
        v < 64,
    ensures
        is_b64_char(b64_char(v)),
        b64_index(b64_char(v)) == v,
{
    assert('+' as u32 == 43);
    assert('/' as u32 == 47);
}

/// Decoding undoes encoding: every byte sequence is recovered exactly from
/// its base64 text.
pub proof fn lemma_b64_round_trip(bytes: Seq<u8>)
    ensures
        b64_decode(b64_encode(bytes)) == Some(bytes),
    decreases bytes.len(),
{
    if bytes.len() == 0 {
        assert(b64_decode(b64_encode(bytes)) =~= Some(bytes));
    } else if bytes.len() == 1 {
        let a = bytes[0];
        assert(a >> 2 < 64 && (a & 3) << 4 < 64) by (bit_vector);
        lemma_b64_char_inverse(a >> 2);
        lemma_b64_char_inverse((a & 3) << 4);
        assert(((a & 3) << 4) & 15 == 0) by (bit_vector);
        assert(((a >> 2) << 2) | (((a & 3) << 4) >> 4) == a) by (bit_vector);
        assert(b64_decode(b64_encode(bytes)).unwrap() =~= bytes);
    } else if bytes.len() == 2 {
        let a = bytes[0];
        let b = bytes[1];
        let s0 = a >> 2;
        let s1 = ((a & 3) << 4) | (b >> 4);
        let s2 = (b & 15) << 2;
        assert(s0 < 64 && s1 < 64 && s2 < 64) by (bit_vector)
            requires
                s0 == a >> 2 && s1 == ((a & 3) << 4) | (b >> 4) && s2 == (b & 15) << 2,
        ;
        lemma_b64_char_inverse(s0);
        lemma_b64_char_inverse(s1);
        lemma_b64_char_inverse(s2);
        assert(((b & 15) << 2) & 3 == 0) by (bit_vector);
        assert(((a >> 2) << 2) | ((((a & 3) << 4) | (b >> 4)) >> 4) == a) by (bit_vector);
        assert((((((a & 3) << 4) | (b >> 4)) & 15) << 4) | (((b & 15) << 2) >> 2) == b)
            by (bit_vector);
        assert(b64_decode(b64_encode(bytes)).unwrap() =~= bytes);
    } else {
        let a = bytes[0];
        let b = bytes[1];
        let c = bytes[2];
        let s0 = a >> 2;
        let s1 = ((a & 3) << 4) | (b >> 4);
        let s2 = ((b & 15) << 2) | (c >> 6);
        let s3 = c & 63;
        assert(s0 < 64 && s1 < 64 && s2 < 64 && s3 < 64) by (bit_vector)
            requires
                s0 == a >> 2 && s1 == ((a & 3) << 4) | (b >> 4) && s2 == ((b & 15) << 2) | (c
                    >> 6) && s3 == c & 63,
        ;
        lemma_b64_char_inverse(s0);
        lemma_b64_char_inverse(s1);
        lemma_b64_char_inverse(s2);
        lemma_b64_char_inverse(s3);
        assert(((a >> 2) << 2) | ((((a & 3) << 4) | (b >> 4)) >> 4) == a) by (bit_vector);
        assert((((((a & 3) << 4) | (b >> 4)) & 15) << 4) | (((((b & 15) << 2) | (c >> 6))) >> 2)
            == b) by (bit_vector);
        assert((((((b & 15) << 2) | (c >> 6)) & 3) << 6) | (c & 63) == c) by (bit_vector);
        lemma_b64_round_trip(bytes.skip(3));
        let enc = b64_encode(bytes);
        let group = b64_encode3(a, b, c);
        let rest = b64_encode(bytes.skip(3));
        assert(enc == group + rest);
        assert(rest.len() != 1) by {
            reveal_with_fuel(b64_encode, 2);
        }
        assert(enc.len() >= 4);
        assert(enc[0] == group[0] && enc[1] == group[1] && enc[2] == group[2] && enc[3]
            == group[3]);
        assert(enc.skip(4) =~= rest);
        assert(b64_decode4(enc[0], enc[1], enc[2], enc[3]) =~= seq![a, b, c]);
        assert(b64_decode(enc).unwrap() =~= bytes);
    }
}

/// Relies on `base64::Engine::encode` with the `STANDARD_NO_PAD` engine:
/// standard alphabet, no padding appended.
#[verifier::external_body]
pub(crate) fn b64_encode_exec(bytes: &Vec<u8>) -> (r: String)
    ensures
        r@ == b64_encode(bytes@),
{
    base64::engine::general_purpose::STANDARD_NO_PAD.encode(bytes.as_slice())
}

/// Relies on `base64::Engine::decode` with the `STANDARD_NO_PAD` engine:
/// standard alphabet, padding rejected, non-zero trailing bits rejected, a
/// length of 1 more than a multiple of 4 rejected.
#[verifier::external_body]
pub(crate) fn b64_decode_exec(s: &str) -> (r: Option<Vec<u8>>)
    ensures
        match r {
            Some(v) => b64_decode(s@) == Some(v@),
            None => b64_decode(s@) is None,
        },
{
    base64::engine::general_purpose::STANDARD_NO_PAD.decode(s).ok()
}

} // verus!
