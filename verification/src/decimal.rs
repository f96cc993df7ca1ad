//! Decimal text, as the store reads integers and as keys are shown.

use vstd::prelude::*;

verus! {

/// The ASCII byte of a decimal digit.
pub open spec fn digit_byte(d: nat) -> u8
    recommends
        d < 10,
{
    (48 + d) as u8
}

/// The decimal digits of `n` as ASCII bytes, most significant first, with no
/// leading zero (zero itself is the single digit `0`).
pub open spec fn decimal(n: nat) -> Seq<u8>
    decreases n,
{
    if n < 10 {
        seq![digit_byte(n)]
    } else {
        decimal(n / 10).push(digit_byte(n % 10))
    }
}

/// The decimal form of a signed integer: a minus sign before the digits of a
/// negative one.
pub open spec fn signed_decimal(n: int) -> Seq<u8> {
    if n < 0 {
        seq![45u8] + decimal((-n) as nat)
    } else {
        decimal(n as nat)
    }
}

/// ASCII bytes read as characters.
pub open spec fn ascii_text(bytes: Seq<u8>) -> Seq<char> {
    bytes.map_values(|b: u8| b as char)
}

/// The text of a number as messages show it.
pub open spec fn decimal_text(n: int) -> Seq<char> {
    ascii_text(signed_decimal(n))
}

/// `u64`'s `Display`, through `to_string`. It is trusted to write the number
/// in decimal.
#[verifier::external_body]
pub(crate) fn u64_to_string(n: u64) -> (text: String)
    ensures
        text@ == ascii_text(decimal(n as nat)),
{
    n.to_string()
}

/// `i64`'s `Display`, through `to_string`. It is trusted to write the number
/// in decimal, with a minus sign if it is negative.
#[verifier::external_body]
pub(crate) fn i64_to_string(n: i64) -> (text: String)
    ensures
        text@ == ascii_text(signed_decimal(n as int)),
{
    n.to_string()
}

/// The number that a run of ASCII decimal digits denotes, if it is one.
pub open spec fn parse_decimal(bytes: Seq<u8>) -> Option<nat>
    decreases bytes.len(),
{
    if bytes.len() == 0 {
        None
    } else if !(48 <= bytes.last() <= 57) {
        None
    } else if bytes.len() == 1 {
        Some((bytes.last() - 48) as nat)
    } else {
        match parse_decimal(bytes.drop_last()) {
            Some(high) => Some(high * 10 + (bytes.last() - 48) as nat),
            None => None,
        }
    }
}

/// Decimal text is never empty.
pub proof fn lemma_decimal_nonempty(n: nat)
    ensures
        decimal(n).len() >= 1,
    decreases n,
{
    if n >= 10 {
        lemma_decimal_nonempty(n / 10);
    }
}

/// Reading decimal text back gives the number it was written from.
pub proof fn lemma_parse_decimal_inverts(n: nat)
    ensures
        parse_decimal(decimal(n)) == Some(n),
    decreases n,
{
    if n < 10 {
        assert(decimal(n).len() == 1);
        assert(decimal(n).last() == digit_byte(n));
    } else {
        let high = decimal(n / 10);
        let all = decimal(n);
        lemma_parse_decimal_inverts(n / 10);
        lemma_decimal_nonempty(n / 10);
        assert(all == high.push(digit_byte(n % 10)));
        assert(all.last() == digit_byte(n % 10));
        assert(all.drop_last() =~= high);
        assert(all.len() >= 2);
    }
}

} // verus!
