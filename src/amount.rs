use std::str::FromStr;

use bigdecimal::ToPrimitive;
use vstd::prelude::*;

verus! {

/// A money amount (or a rate, or a quantity) held in hundredths: the scale
/// of every currency this network settles in.
#[derive(Clone, Copy, Debug, PartialEq, Eq, Structural)]
pub struct Amount {
    pub hundredths: i64,
}

impl Amount {
    pub open spec fn value(self) -> int {
        self.hundredths as int
    }

    pub fn zero() -> (r: Amount)
        ensures
            r.value() == 0,
    {
        Amount { hundredths: 0 }
    }
}

/// A character that a plain decimal number may hold: a digit, a point or a sign.
pub open spec fn is_decimal_char(c: char) -> bool {
    ('0' <= c && c <= '9') || c == '.' || c == '-' || c == '+'
}

/// Text without exponent notation, so that reading it costs time linear in its length.
pub open spec fn is_plain_decimal_text(s: Seq<char>) -> bool {
    forall|i: int| 0 <= i < s.len() ==> is_decimal_char(#[trigger] s[i])
}

/// The value of the text as a decimal number, truncated toward zero to
/// `scale` decimal places and given as an integer count of those places
/// (at scale 2, in hundredths), or `None` when the text is no number.
pub uninterp spec fn decimal_at_scale(s: Seq<char>, scale: nat) -> Option<int>;

pub open spec fn decimal_hundredths(s: Seq<char>) -> Option<int> {
    decimal_at_scale(s, 2)
}

pub open spec fn fits_i64(v: int) -> bool {
    i64::MIN <= v <= i64::MAX
}

/// Relies on bigdecimal's `BigDecimal::from_str` to read the text,
/// `BigDecimal::with_scale(scale)` to truncate it to that many decimal
/// places, and `ToPrimitive::to_i64` on the unscaled integer, which is
/// `None` out of range.
#[verifier::external_body]
fn parse_scaled(s: &str, scale: u32) -> (r: Option<i64>)
    requires
        is_plain_decimal_text(s@),
        scale <= 18,
    ensures
        r is Some <==> (decimal_at_scale(s@, scale as nat) is Some && fits_i64(
            decimal_at_scale(s@, scale as nat)->0,
        )),
        r is Some ==> r->0 as int == decimal_at_scale(s@, scale as nat)->0,
{
    match bigdecimal::BigDecimal::from_str(s) {
        Ok(d) => d.with_scale(scale as i64).as_bigint_and_exponent().0.to_i64(),
        Err(_) => None,
    }
}

/// Checks that the text holds only digits, points and signs.
fn plain_decimal_text(s: &str) -> (r: bool)
    ensures
        r == is_plain_decimal_text(s@),
{
    let n = s.unicode_len();
    let mut i: usize = 0;
    while i < n
        invariant
            n == s@.len(),
            i <= n,
            forall|j: int| 0 <= j < i ==> is_decimal_char(#[trigger] s@[j]),
        decreases n - i,
    {
        let c = s.get_char(i);
        if !(('0' <= c && c <= '9') || c == '.' || c == '-' || c == '+') {
            assert(!is_decimal_char(s@[i as int]));
            return false;
        }
        i = i + 1;
    }
    true
}

/// What `parse_amount` gives for a text: its value when it is a plain
/// decimal number that fits, else `None`.
pub open spec fn amount_of_text(s: Seq<char>) -> Option<int> {
    if is_plain_decimal_text(s) && decimal_hundredths(s) is Some && fits_i64(
        decimal_hundredths(s)->0,
    ) {
        decimal_hundredths(s)
    } else {
        None
    }
}

/// Reads a decimal amount such as `"1200.00"`; text with an exponent, a
/// stray character or a value out of range gives `None`.
pub fn parse_amount(s: &str) -> (r: Option<Amount>)
    ensures
        r is Some <==> amount_of_text(s@) is Some,
        r is Some ==> r->0.value() == amount_of_text(s@)->0,
{
    if !plain_decimal_text(s) {
        return None;
    }
    match parse_scaled(s, 2) {
        Some(v) => Some(Amount { hundredths: v }),
        None => None,
    }
}

/// The amount that a text stands for, zero when it stands for none.
pub open spec fn amount_or_zero(s: Seq<char>) -> int {
    match amount_of_text(s) {
        Some(v) => v,
        None => 0,
    }
}

/// Reads a decimal amount, zero when the text is no amount.
pub fn parse_amount_or_zero(s: &str) -> (r: Amount)
    ensures
        r.value() == amount_or_zero(s@),
{
    match parse_amount(s) {
        Some(a) => a,
        None => Amount::zero(),
    }
}

/// The integer part of a value in hundredths, truncated toward zero.
pub open spec fn truncated_units(v: int) -> int {
    if v >= 0 { v / 100 } else { -((-v) / 100) }
}

/// The count emitted for a quantity: its integer part with zero scale, or
/// zero where that does not fit an `i32`.
pub open spec fn whole_units_i32(a: Amount) -> int {
    let u = truncated_units(a.value());
    if i32::MIN <= u <= i32::MAX { u } else { 0 }
}

pub fn whole_units(a: Amount) -> (r: i32)
    ensures
        r as int == whole_units_i32(a),
{
    let w: i128 = a.hundredths as i128;
    let u: i128 = if w >= 0 { w / 100 } else { -((-w) / 100) };
    if u >= i32::MIN as i128 && u <= i32::MAX as i128 {
        u as i32
    } else {
        0
    }
}

/// A geographic coordinate in millionths of a degree.
#[derive(Clone, Copy, Debug, PartialEq, Eq, Structural)]
pub struct Coordinate {
    pub millionths: i64,
}

/// What `parse_coordinate_or_zero` gives for a text: its value at six
/// decimal places when it is a plain decimal number that fits, else zero.
pub open spec fn coordinate_or_zero(s: Seq<char>) -> int {
    if is_plain_decimal_text(s) && decimal_at_scale(s, 6) is Some && fits_i64(decimal_at_scale(s, 6)->0) {
        decimal_at_scale(s, 6)->0
    } else {
        0
    }
}

/// Reads a decimal coordinate, truncated to millionths; zero when the text
/// is no number.
pub fn parse_coordinate_or_zero(s: &str) -> (r: Coordinate)
    ensures
        r.millionths as int == coordinate_or_zero(s@),
{
    if !plain_decimal_text(s) {
        return Coordinate { millionths: 0 };
    }
    match parse_scaled(s, 6) {
        Some(v) => Coordinate { millionths: v },
        None => Coordinate { millionths: 0 },
    }
}

} // verus!
