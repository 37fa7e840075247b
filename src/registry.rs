//! Entries of the SMuFL glyph registry, the generator's input.
use vstd::prelude::*;
use crate::text::chars_of;

verus! {

/// A Unicode scalar value, written in the registry as `U+` followed by
/// hexadecimal digits (`"U+E0A4"`).
#[derive(Clone, Copy, Debug, PartialEq, Eq, Structural)]
pub struct Codepoint(pub char);

/// Why a registry code point could not be read.
#[derive(Clone, Copy, Debug, PartialEq, Eq, Structural)]
pub enum CodepointError {
    /// The text does not start with `U+`.
    MissingPrefix,
    /// Nothing follows `U+`, or something other than a hexadecimal digit does.
    InvalidHex,
    /// The digits name a surrogate or a value past `0x10FFFF`.
    NotScalarValue,
}

/// One registry entry: the glyph's code points and its description.
#[derive(Clone, Debug)]
pub struct Glyph {
    /// The glyph's code point in the SMuFL private use area.
    pub codepoint: Codepoint,
    /// The glyph's code point in the Unicode Musical Symbols range, if any.
    pub alternate_codepoint: Option<Codepoint>,
    /// A human-readable description.
    pub description: String,
}

pub open spec fn is_hex_digit(c: char) -> bool {
    ('0' <= c && c <= '9') || ('a' <= c && c <= 'f') || ('A' <= c && c <= 'F')
}

pub open spec fn hex_digit_value(c: char) -> nat {
    if '0' <= c && c <= '9' {
        (c as u32 - '0' as u32) as nat
    } else if 'a' <= c && c <= 'f' {
        (c as u32 - 'a' as u32 + 10) as nat
    } else {
        (c as u32 - 'A' as u32 + 10) as nat
    }
}

/// The number that the hexadecimal digits `s` spell, most significant first.
pub open spec fn hex_value(s: Seq<char>) -> nat
    decreases s.len(),
{
    if s.len() == 0 {
        0
    } else {
        hex_value(s.drop_last()) * 16 + hex_digit_value(s.last())
    }
}

/// `v` is a Unicode scalar value: at most `0x10FFFF` and not a surrogate.
pub open spec fn is_scalar_value(v: nat) -> bool {
    v <= 0x10FFFF && !(0xD800 <= v && v <= 0xDFFF)
}

pub open spec fn has_codepoint_prefix(s: Seq<char>) -> bool {
    s.len() >= 2 && s[0] == 'U' && s[1] == '+'
}

/// What follows `U+`.
pub open spec fn codepoint_digits(s: Seq<char>) -> Seq<char> {
    s.subrange(2, s.len() as int)
}

pub open spec fn all_hex(s: Seq<char>) -> bool {
    s.len() > 0 && forall|i: int| 0 <= i < s.len() ==> is_hex_digit(#[trigger] s[i])
}

/// How reading the registry text `s` as a code point turns out.
pub open spec fn codepoint_outcome(s: Seq<char>) -> Result<nat, CodepointError> {
    if !has_codepoint_prefix(s) {
        Err(CodepointError::MissingPrefix)
    } else if !all_hex(codepoint_digits(s)) {
        Err(CodepointError::InvalidHex)
    } else if !is_scalar_value(hex_value(codepoint_digits(s))) {
        Err(CodepointError::NotScalarValue)
    } else {
        Ok(hex_value(codepoint_digits(s)))
    }
}

/// Relies on `char::from_u32`: `Some` exactly for scalar values, holding the
/// character with that number.
#[verifier::external_body]
fn char_from_u32(v: u32) -> (r: Option<char>)
    ensures
        r is Some <==> is_scalar_value(v as nat),
        r matches Some(c) ==> c as nat == v as nat,
{
    char::from_u32(v)
}

fn hex_digit(c: char) -> (r: u32)
    requires
        is_hex_digit(c),
    ensures
        r as nat == hex_digit_value(c),
        r < 16,
{
    if '0' <= c && c <= '9' {
        (c as u32) - ('0' as u32)
    } else if 'a' <= c && c <= 'f' {
        (c as u32) - ('a' as u32) + 10
    } else {
        (c as u32) - ('A' as u32) + 10
    }
}

proof fn lemma_hex_value_step(s: Seq<char>, i: int)
    requires
        0 <= i < s.len(),
    ensures
        hex_value(s.subrange(0, i + 1)) == hex_value(s.subrange(0, i)) * 16 + hex_digit_value(
            s[i],
        ),
{
    assert(s.subrange(0, i + 1).drop_last() =~= s.subrange(0, i));
}

/// The character literal that `char`'s `Debug` writes for `c`.
pub uninterp spec fn char_debug(c: char) -> Seq<char>;

/// Relies on `char`'s `Debug`: a quoted, escaped character literal, which
/// depends on the character alone.
#[verifier::external_body]
fn char_literal(c: char) -> (r: String)
    ensures
        r@ == char_debug(c),
{
    format!("{:?}", c)
}

impl Codepoint {
    /// The code point as a Rust character literal, such as `'\u{e0a4}'`.
    pub fn literal(&self) -> (r: String)
        ensures
            r@ == char_debug(self.0),
    {
        char_literal(self.0)
    }

    /// Reads a registry code point such as `"U+E0A4"`.
    pub fn parse(s: &str) -> (r: Result<Codepoint, CodepointError>)
        ensures
            match codepoint_outcome(s@) {
                Ok(v) => r matches Ok(cp) && cp.0 as nat == v,
                Err(e) => r == Err::<Codepoint, CodepointError>(e),
            },
    {
        let c = chars_of(s);
        let n = c.len();
        if n < 2 || c[0] != 'U' || c[1] != '+' {
            return Err(CodepointError::MissingPrefix);
        }
        let ghost digits = codepoint_digits(s@);
        if n == 2 {
            return Err(CodepointError::InvalidHex);
        }
        let mut i: usize = 2;
        while i < n
            invariant
                c@ == s@,
                n == c@.len(),
                2 <= i <= n,
                has_codepoint_prefix(s@),
                digits == c@.subrange(2, n as int),
                forall|j: int| 2 <= j < i ==> is_hex_digit(#[trigger] c@[j]),
            decreases n - i,
        {
            let d = c[i];
            if !(('0' <= d && d <= '9') || ('a' <= d && d <= 'f') || ('A' <= d && d <= 'F')) {
                assert(digits[i - 2] == d);
                assert(!is_hex_digit(digits[i - 2]));
                return Err(CodepointError::InvalidHex);
            }
            i = i + 1;
        }
        assert(all_hex(digits)) by {
            assert forall|j: int| 0 <= j < digits.len() implies is_hex_digit(#[trigger] digits[j]) by {
                assert(digits[j] == c@[j + 2]);
            }
        }
        let mut value: u32 = 0;
        let mut too_large = false;
        let mut k: usize = 2;
        while k < n
            invariant
                c@ == s@,
                n == c@.len(),
                2 <= k <= n,
                has_codepoint_prefix(s@),
                digits == c@.subrange(2, n as int),
                all_hex(digits),
                too_large ==> hex_value(digits.subrange(0, k - 2)) > 0x10FFFF,
                !too_large ==> value as nat == hex_value(digits.subrange(0, k - 2)) && value
                    <= 0x10FFFF,
            decreases n - k,
        {
            proof {
                lemma_hex_value_step(digits, k - 2);
            }
            assert(digits[k - 2] == c@[k as int]);
            let d = hex_digit(c[k]);
            if !too_large {
                let next = value * 16 + d;
                if next > 0x10FFFF {
                    too_large = true;
                } else {
                    value = next;
                }
            }
            k = k + 1;
        }
        assert(digits.subrange(0, n - 2) =~= digits);
        if too_large {
            return Err(CodepointError::NotScalarValue);
        }
        match char_from_u32(value) {
            Some(ch) => Ok(Codepoint(ch)),
            None => Err(CodepointError::NotScalarValue),
        }
    }
}

} // verus!
