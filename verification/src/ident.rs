//! Typed identifiers and total parsing of identifier tokens.
//!
//! A `device`, `group`, `campaign` or `update` parameter arrives as a string
//! and is parsed into the domain's identifier type. Parsing is total: every
//! string either yields exactly one identifier value or exactly one failure
//! cause, decided by the string alone.

use vstd::prelude::*;

verus! {

/// Why an identifier or device-kind token failed to parse.
#[derive(PartialEq, Eq, Structural, Clone, Copy, Debug)]
pub enum ParseFailure {
    /// The token is empty.
    Empty,
    /// The token holds a character that is not a decimal digit.
    NonDigit,
    /// The token is a decimal number too large for an identifier.
    Overflow,
    /// The token names no recognized device kind.
    UnknownKind,
}

/// Identifier of a campaign.
#[derive(PartialEq, Eq, Structural, Clone, Copy, Debug)]
pub struct CampaignId(pub u64);

/// Identifier of a device.
#[derive(PartialEq, Eq, Structural, Clone, Copy, Debug)]
pub struct DeviceId(pub u64);

/// Identifier of a device group.
#[derive(PartialEq, Eq, Structural, Clone, Copy, Debug)]
pub struct GroupId(pub u64);

/// Identifier of a multi-target update.
#[derive(PartialEq, Eq, Structural, Clone, Copy, Debug)]
pub struct UpdateId(pub u64);

/// Whether `c` is a decimal digit.
pub open spec fn is_digit(c: char) -> bool {
    48 <= c as u32 && c as u32 <= 57
}

/// The numeric value of a digit character.
pub open spec fn digit_val(c: char) -> int {
    c as u32 - 48
}

/// Whether every character of `s` is a decimal digit.
pub open spec fn all_digits(s: Seq<char>) -> bool {
    forall|i: int| 0 <= i < s.len() ==> is_digit(s[i])
}

/// The value of `s` read as a decimal numeral.
pub open spec fn dec_val(s: Seq<char>) -> int
    decreases s.len(),
{
    if s.len() == 0 {
        0
    } else {
        dec_val(s.drop_last()) * 10 + digit_val(s.last())
    }
}

/// What parsing an identifier token yields: the decimal value of the token,
/// or the one failure cause the token falls under. Empty tokens are rejected
/// first, then tokens with a non-digit character, then values that do not
/// fit an identifier.
pub open spec fn id_of(s: Seq<char>) -> Result<u64, ParseFailure> {
    if s.len() == 0 {
        Err(ParseFailure::Empty)
    } else if !all_digits(s) {
        Err(ParseFailure::NonDigit)
    } else if dec_val(s) > u64::MAX {
        Err(ParseFailure::Overflow)
    } else {
        Ok(dec_val(s) as u64)
    }
}

/// A decimal numeral is never negative.
proof fn lemma_dec_val_nonneg(s: Seq<char>)
    requires
        all_digits(s),
    ensures
        dec_val(s) >= 0,
    decreases s.len(),
{
    if s.len() > 0 {
        assert(all_digits(s.drop_last())) by {
            assert(forall|i: int| 0 <= i < s.len() - 1 ==> s.drop_last()[i] == s[i]);
        }
        lemma_dec_val_nonneg(s.drop_last());
    }
}

/// Extending a numeral by one digit never shrinks its value.
proof fn lemma_dec_val_step(s: Seq<char>, i: int)
    requires
        all_digits(s),
        0 <= i < s.len(),
    ensures
        dec_val(s.take(i + 1)) >= dec_val(s.take(i)),
        dec_val(s.take(i + 1)) == dec_val(s.take(i)) * 10 + digit_val(s[i]),
{
    assert(s.take(i + 1).drop_last() =~= s.take(i));
    assert(s.take(i + 1).last() == s[i]);
    assert(all_digits(s.take(i))) by {
        assert(forall|j: int| 0 <= j < i ==> s.take(i)[j] == s[j]);
    }
    lemma_dec_val_nonneg(s.take(i));
    assert(dec_val(s.take(i)) * 10 >= dec_val(s.take(i))) by (nonlinear_arith)
        requires dec_val(s.take(i)) >= 0;
}

/// The value of a numeral is at least the value of any of its prefixes.
proof fn lemma_dec_val_prefix(s: Seq<char>, i: int, j: int)
    requires
        all_digits(s),
        0 <= i <= j <= s.len(),
    ensures
        dec_val(s.take(j)) >= dec_val(s.take(i)),
    decreases j - i,
{
    if i < j {
        lemma_dec_val_step(s, j - 1);
        lemma_dec_val_prefix(s, i, j - 1);
    }
}

/// Parse an identifier token. The result is decided by the token alone:
/// its decimal value, or the exact cause under which it is rejected.
pub fn parse_id(s: &str) -> (r: Result<u64, ParseFailure>)
    ensures
        r == id_of(s@),
{
    let n = s.unicode_len();
    if n == 0 {
        return Err(ParseFailure::Empty);
    }
    let mut acc: u64 = 0;
    let mut i: usize = 0;
    while i < n
        invariant
            0 < n == s@.len(),
            0 <= i <= n,
            forall|j: int| 0 <= j < i ==> is_digit(s@[j]),
            acc == dec_val(s@.take(i as int)),
        decreases n - i,
    {
        let c = s.get_char(i);
        let u = c as u32;
        if u < 48 || u > 57 {
            return Err(ParseFailure::NonDigit);
        }
        let d: u64 = (u - 48) as u64;
        let wide: u128 = (acc as u128) * 10 + (d as u128);
        proof {
            lemma_dec_val_step(s@.take(i + 1), i as int);
            assert(s@.take(i + 1).take(i as int) =~= s@.take(i as int));
            assert(s@.take(i + 1).take(i + 1) =~= s@.take(i + 1));
        }
        if wide > u64::MAX as u128 {
            // The prefix up to and including this digit is already too
            // large, so the whole token is, unless a later character is
            // not a digit at all: that cause takes precedence.
            let mut j: usize = i + 1;
            while j < n
                invariant
                    i < j <= n,
                    n == s@.len(),
                    forall|k: int| 0 <= k < j ==> is_digit(s@[k]),
                decreases n - j,
            {
                let c2 = s.get_char(j);
                let u2 = c2 as u32;
                if u2 < 48 || u2 > 57 {
                    return Err(ParseFailure::NonDigit);
                }
                j += 1;
            }
            proof {
                lemma_dec_val_prefix(s@, i + 1, n as int);
                assert(s@.take(n as int) =~= s@);
            }
            return Err(ParseFailure::Overflow);
        }
        acc = wide as u64;
        i += 1;
    }
    proof {
        assert(s@.take(n as int) =~= s@);
    }
    Ok(acc)
}

/// Identifier parsing is total and exact: every token yields either its
/// decimal value or the one failure cause it falls under, and never both.
pub proof fn lemma_id_parse_total(s: Seq<char>)
    ensures
        s.len() == 0 ==> id_of(s) == Err::<u64, ParseFailure>(ParseFailure::Empty),
        s.len() > 0 && !all_digits(s) ==> id_of(s) == Err::<u64, ParseFailure>(
            ParseFailure::NonDigit,
        ),
        s.len() > 0 && all_digits(s) && dec_val(s) > u64::MAX ==> id_of(s) == Err::<
            u64,
            ParseFailure,
        >(ParseFailure::Overflow),
        s.len() > 0 && all_digits(s) && dec_val(s) <= u64::MAX ==> id_of(s) == Ok::<
            u64,
            ParseFailure,
        >(dec_val(s) as u64),
{
    if s.len() > 0 && all_digits(s) {
        lemma_dec_val_nonneg(s);
    }
}

} // verus!
