//! Double-precision numbers, represented by their IEEE 754 bit patterns.
//!
//! The evaluator folds constant arithmetic on double-precision numbers, and
//! the recipe codec stores durations and probabilities as such numbers.
//! Verified code cannot compute with machine floats, so a number is carried
//! as the pair of its bit pattern (the model that all contracts speak of)
//! and its shortest decimal rendering (what the trusted wrappers feed back
//! to the machine arithmetic).

use vstd::prelude::*;

verus! {

/// Sign bit of an IEEE 754 double.
pub const F64_SIGN_MASK: u64 = 0x8000_0000_0000_0000;

/// Exponent bits of an IEEE 754 double.
pub const F64_EXP_MASK: u64 = 0x7ff0_0000_0000_0000;

/// Fraction bits of an IEEE 754 double.
pub const F64_FRAC_MASK: u64 = 0x000f_ffff_ffff_ffff;

/// Bit pattern of the double 1.0.
pub const ONE_BITS: u64 = 0x3ff0_0000_0000_0000;

/// Bit pattern of the double 0.5.
pub const HALF_BITS: u64 = 0x3fe0_0000_0000_0000;

/// The bit pattern encodes a NaN: exponent all ones, fraction non-zero.
pub open spec fn is_nan_bits(b: u64) -> bool {
    b & F64_EXP_MASK == F64_EXP_MASK && b & F64_FRAC_MASK != 0
}

/// The bit pattern encodes a finite double: exponent not all ones.
pub open spec fn is_finite_bits(b: u64) -> bool {
    b & F64_EXP_MASK != F64_EXP_MASK
}

/// The bit pattern encodes a zero of either sign.
pub open spec fn is_zero_bits(b: u64) -> bool {
    b & (F64_EXP_MASK | F64_FRAC_MASK) == 0
}

/// The bit pattern carries a set sign bit (a negative or negative-zero value).
pub open spec fn is_neg_bits(b: u64) -> bool {
    b & F64_SIGN_MASK != 0
}

/// IEEE 754 equality of the doubles the two bit patterns encode: a NaN equals
/// nothing, the two zeroes equal each other, and any other value only itself.
pub open spec fn eq_bits(a: u64, b: u64) -> bool {
    if is_nan_bits(a) || is_nan_bits(b) {
        false
    } else if is_zero_bits(a) && is_zero_bits(b) {
        true
    } else {
        a == b
    }
}

/// IEEE 754 strict order of the doubles the two bit patterns encode: any
/// comparison against a NaN is false; otherwise non-negative doubles order as
/// their bit patterns do, and negative doubles in reverse.
pub open spec fn lt_bits(a: u64, b: u64) -> bool {
    if is_nan_bits(a) || is_nan_bits(b) {
        false
    } else if is_zero_bits(a) && is_zero_bits(b) {
        false
    } else if is_neg_bits(a) != is_neg_bits(b) {
        is_neg_bits(a)
    } else if !is_neg_bits(a) {
        a < b
    } else {
        b < a
    }
}

/// IEEE 754 non-strict order: strictly less, or equal.
pub open spec fn le_bits(a: u64, b: u64) -> bool {
    lt_bits(a, b) || eq_bits(a, b)
}

/// The bit pattern of the double that std parses out of this text, after one
/// round of formatting and re-parsing (which canonicalises a NaN), or `None`
/// where std's float grammar rejects the text.
pub uninterp spec fn parse_bits(s: Seq<char>) -> Option<u64>;

/// The shortest decimal rendering std gives the double with this bit pattern.
pub uninterp spec fn fmt_bits(b: u64) -> Seq<char>;

/// Canonicalised bit pattern of the sum of the doubles with these bit patterns.
pub uninterp spec fn add_bits(a: u64, b: u64) -> u64;

/// Canonicalised bit pattern of the difference of the doubles with these bit patterns.
pub uninterp spec fn sub_bits(a: u64, b: u64) -> u64;

/// Canonicalised bit pattern of the product of the doubles with these bit patterns.
pub uninterp spec fn mul_bits(a: u64, b: u64) -> u64;

/// Canonicalised bit pattern of the quotient of the doubles with these bit patterns.
pub uninterp spec fn div_bits(a: u64, b: u64) -> u64;

/// Canonicalised bit pattern of the remainder of the doubles with these bit patterns.
pub uninterp spec fn rem_bits(a: u64, b: u64) -> u64;

/// Canonicalised bit pattern of the first double raised to the second.
pub uninterp spec fn pow_bits(a: u64, b: u64) -> u64;

/// Canonicalised bit pattern of the negation of the double with this bit pattern.
pub uninterp spec fn neg_bits(a: u64) -> u64;

/// Bit pattern of the double nearest to this unsigned integer.
pub uninterp spec fn bits_of_u64(u: u64) -> u64;

/// Bit pattern of the double nearest to this signed integer.
pub uninterp spec fn bits_of_i64(i: i64) -> u64;

/// A double-precision number: its IEEE 754 bit pattern, which all contracts
/// speak of, beside its decimal rendering, which the trusted arithmetic
/// wrappers parse to recover the machine value.
#[derive(Debug, Clone, PartialEq)]
pub struct Num {
    /// IEEE 754 bit pattern of the value.
    pub bits: u64,
    /// Shortest decimal rendering of the value, as std formats it.
    pub text: String,
}

impl Num {
    /// The rendering matches the bit pattern; every `Num` the library builds
    /// satisfies this, which lets the wrappers recover the value from the text.
    pub open spec fn wf(self) -> bool {
        self.text@ == fmt_bits(self.bits)
    }

    /// The value is finite (neither an infinity nor a NaN).
    pub fn is_finite(&self) -> (r: bool)
        ensures
            r == is_finite_bits(self.bits),
    {
        self.bits & F64_EXP_MASK != F64_EXP_MASK
    }
}

/// IEEE 754 equality of the doubles two bit patterns encode.
pub fn eq_bits_exec(a: u64, b: u64) -> (r: bool)
    ensures
        r == eq_bits(a, b),
{
    let a_nan = a & F64_EXP_MASK == F64_EXP_MASK && a & F64_FRAC_MASK != 0;
    let b_nan = b & F64_EXP_MASK == F64_EXP_MASK && b & F64_FRAC_MASK != 0;
    if a_nan || b_nan {
        false
    } else if a & (F64_EXP_MASK | F64_FRAC_MASK) == 0 && b & (F64_EXP_MASK | F64_FRAC_MASK) == 0 {
        true
    } else {
        a == b
    }
}

/// IEEE 754 equality of two numbers, decided on the bit patterns.
pub fn num_eq(a: &Num, b: &Num) -> (r: bool)
    ensures
        r == eq_bits(a.bits, b.bits),
{
    eq_bits_exec(a.bits, b.bits)
}

/// IEEE 754 strict order of two numbers, decided on the bit patterns.
pub fn num_lt(a: &Num, b: &Num) -> (r: bool)
    ensures
        r == lt_bits(a.bits, b.bits),
{
    let a_nan = a.bits & F64_EXP_MASK == F64_EXP_MASK && a.bits & F64_FRAC_MASK != 0;
    let b_nan = b.bits & F64_EXP_MASK == F64_EXP_MASK && b.bits & F64_FRAC_MASK != 0;
    if a_nan || b_nan {
        false
    } else if a.bits & (F64_EXP_MASK | F64_FRAC_MASK) == 0 && b.bits & (F64_EXP_MASK
        | F64_FRAC_MASK) == 0 {
        false
    } else if (a.bits & F64_SIGN_MASK != 0) != (b.bits & F64_SIGN_MASK != 0) {
        a.bits & F64_SIGN_MASK != 0
    } else if a.bits & F64_SIGN_MASK == 0 {
        a.bits < b.bits
    } else {
        b.bits < a.bits
    }
}

/// IEEE 754 non-strict order of two numbers, decided on the bit patterns.
pub fn num_le(a: &Num, b: &Num) -> (r: bool)
    ensures
        r == le_bits(a.bits, b.bits),
{
    let lt = num_lt(a, b);
    let eq = num_eq(a, b);
    lt || eq
}

/// Relies on std's `str::parse::<f64>` and the `Display` formatting of `f64`:
/// parsing follows std's float grammar (with overflow giving an infinity),
/// and formatting yields the shortest decimal that parses back to the same
/// value. `serde_json::Number::as_f64` only supplies a float-typed zero.
#[verifier::external_body]
pub(crate) fn num_parse(text: &str) -> (r: Option<Num>)
    ensures
        r matches Some(n) ==> n.wf() && n.text@ == fmt_bits(n.bits) && parse_bits(text@) == Some(
            n.bits,
        ),
        r is None ==> parse_bits(text@) is None,
{
    let zero = serde_json::Number::from(0u64).as_f64().unwrap();
    let parsed = text.parse();
    let x = *parsed.as_ref().unwrap_or(&zero);
    if parsed.is_err() {
        return None;
    }
    let rendered = format!("{}", x);
    let canon = rendered.parse().unwrap_or(zero);
    Some(Num { bits: canon.to_bits(), text: format!("{}", canon) })
}

/// Relies on std's `f64` addition (`std::ops::Add`), with the result
/// canonicalised through `Display` formatting and re-parsing.
/// `serde_json::Number::as_f64` only supplies a float-typed zero.
#[verifier::external_body]
pub(crate) fn num_add(a: &Num, b: &Num) -> (r: Num)
    requires
        a.wf(),
        b.wf(),
    ensures
        r.wf(),
        r.bits == add_bits(a.bits, b.bits),
{
    let zero = serde_json::Number::from(0u64).as_f64().unwrap();
    let x = a.text.parse().unwrap_or(zero);
    let y = b.text.parse().unwrap_or(zero);
    let z = std::ops::Add::add(x, y);
    let text = format!("{}", z);
    Num { bits: text.parse().unwrap_or(zero).to_bits(), text }
}

/// Relies on std's `f64` subtraction (`std::ops::Sub`), with the result
/// canonicalised through `Display` formatting and re-parsing.
/// `serde_json::Number::as_f64` only supplies a float-typed zero.
#[verifier::external_body]
pub(crate) fn num_sub(a: &Num, b: &Num) -> (r: Num)
    requires
        a.wf(),
        b.wf(),
    ensures
        r.wf(),
        r.bits == sub_bits(a.bits, b.bits),
{
    let zero = serde_json::Number::from(0u64).as_f64().unwrap();
    let x = a.text.parse().unwrap_or(zero);
    let y = b.text.parse().unwrap_or(zero);
    let z = std::ops::Sub::sub(x, y);
    let text = format!("{}", z);
    Num { bits: text.parse().unwrap_or(zero).to_bits(), text }
}

/// Relies on std's `f64` multiplication (`std::ops::Mul`), with the result
/// canonicalised through `Display` formatting and re-parsing.
/// `serde_json::Number::as_f64` only supplies a float-typed zero.
#[verifier::external_body]
pub(crate) fn num_mul(a: &Num, b: &Num) -> (r: Num)
    requires
        a.wf(),
        b.wf(),
    ensures
        r.wf(),
        r.bits == mul_bits(a.bits, b.bits),
{
    let zero = serde_json::Number::from(0u64).as_f64().unwrap();
    let x = a.text.parse().unwrap_or(zero);
    let y = b.text.parse().unwrap_or(zero);
    let z = std::ops::Mul::mul(x, y);
    let text = format!("{}", z);
    Num { bits: text.parse().unwrap_or(zero).to_bits(), text }
}

/// Relies on std's `f64` division (`std::ops::Div`; division by zero gives an
/// infinity or a NaN, it does not trap), with the result canonicalised through
/// `Display` formatting and re-parsing.
/// `serde_json::Number::as_f64` only supplies a float-typed zero.
#[verifier::external_body]
pub(crate) fn num_div(a: &Num, b: &Num) -> (r: Num)
    requires
        a.wf(),
        b.wf(),
    ensures
        r.wf(),
        r.bits == div_bits(a.bits, b.bits),
{
    let zero = serde_json::Number::from(0u64).as_f64().unwrap();
    let x = a.text.parse().unwrap_or(zero);
    let y = b.text.parse().unwrap_or(zero);
    let z = std::ops::Div::div(x, y);
    let text = format!("{}", z);
    Num { bits: text.parse().unwrap_or(zero).to_bits(), text }
}

/// Relies on std's `f64` remainder (`std::ops::Rem`; a zero divisor gives a
/// NaN, it does not trap), with the result canonicalised through `Display`
/// formatting and re-parsing.
/// `serde_json::Number::as_f64` only supplies a float-typed zero.
#[verifier::external_body]
pub(crate) fn num_rem(a: &Num, b: &Num) -> (r: Num)
    requires
        a.wf(),
        b.wf(),
    ensures
        r.wf(),
        r.bits == rem_bits(a.bits, b.bits),
{
    let zero = serde_json::Number::from(0u64).as_f64().unwrap();
    let x = a.text.parse().unwrap_or(zero);
    let y = b.text.parse().unwrap_or(zero);
    let z = std::ops::Rem::rem(x, y);
    let text = format!("{}", z);
    Num { bits: text.parse().unwrap_or(zero).to_bits(), text }
}

/// Relies on std's `f64::powf`, with the result canonicalised through
/// `Display` formatting and re-parsing. std documents `powf`'s precision as
/// platform-dependent; [`pow_bits`] names the value this platform computes.
/// `serde_json::Number::as_f64` only supplies a float-typed zero.
#[verifier::external_body]
pub(crate) fn num_pow(a: &Num, b: &Num) -> (r: Num)
    requires
        a.wf(),
        b.wf(),
    ensures
        r.wf(),
        r.bits == pow_bits(a.bits, b.bits),
{
    let zero = serde_json::Number::from(0u64).as_f64().unwrap();
    let x = a.text.parse().unwrap_or(zero);
    let y = b.text.parse().unwrap_or(zero);
    let z = x.powf(y);
    let text = format!("{}", z);
    Num { bits: text.parse().unwrap_or(zero).to_bits(), text }
}

/// Relies on std's `f64` negation (`std::ops::Neg`), with the result
/// canonicalised through `Display` formatting and re-parsing.
/// `serde_json::Number::as_f64` only supplies a float-typed zero.
#[verifier::external_body]
pub(crate) fn num_neg(a: &Num) -> (r: Num)
    requires
        a.wf(),
    ensures
        r.wf(),
        r.bits == neg_bits(a.bits),
{
    let zero = serde_json::Number::from(0u64).as_f64().unwrap();
    let x = a.text.parse().unwrap_or(zero);
    let z = std::ops::Neg::neg(x);
    let text = format!("{}", z);
    Num { bits: text.parse().unwrap_or(zero).to_bits(), text }
}

/// Relies on `serde_json::Number::as_f64`, which converts an unsigned
/// integer to the nearest double (`u as f64`).
#[verifier::external_body]
pub(crate) fn f64_bits_from_u64(u: u64) -> (r: u64)
    ensures
        r == bits_of_u64(u),
{
    serde_json::Number::from(u).as_f64().unwrap().to_bits()
}

/// Relies on `serde_json::Number::as_f64`, which converts a signed
/// integer to the nearest double (`i as f64`).
#[verifier::external_body]
pub(crate) fn f64_bits_from_i64(i: i64) -> (r: u64)
    ensures
        r == bits_of_i64(i),
{
    serde_json::Number::from(i).as_f64().unwrap().to_bits()
}

} // verus!
