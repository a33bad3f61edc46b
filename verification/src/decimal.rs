//! Fixed-point decimal numbers.
//!
//! A [`Decimal`] holds the two plain values that `rust_decimal::Decimal`
//! is made of: a signed mantissa of at most 96 bits and a scale between 0 and
//! 28.  The number it stands for is `mantissa / 10^scale`.  Parsing and the
//! arithmetic operations are delegated to `rust_decimal`; comparison,
//! negation and the constants are stated exactly here.
use vstd::prelude::*;

use crate::text::decimal_text;

verus! {

/// Largest magnitude of a mantissa: 2^96 - 1.
pub const MAX_MANTISSA: i128 = 0xFFFF_FFFF_FFFF_FFFF_FFFF_FFFFi128;

/// Largest scale (number of fractional decimal digits).
pub const MAX_SCALE: u32 = 28u32;

/// `10^n`.
pub open spec fn pow10(n: nat) -> int
    decreases n,
{
    if n == 0 {
        1
    } else {
        10 * pow10((n - 1) as nat)
    }
}

pub proof fn lemma_pow10_positive(n: nat)
    ensures
        pow10(n) >= 1,
    decreases n,
{
    if n > 0 {
        lemma_pow10_positive((n - 1) as nat);
    }
}

/// A decimal number `mantissa / 10^scale`.
#[derive(Clone, Copy, Debug)]
pub struct Decimal {
    mantissa: i128,
    scale: u32,
}

impl View for Decimal {
    type V = (int, nat);

    /// The mantissa and the scale, as mathematical integers.
    open spec fn view(&self) -> (int, nat) {
        (self.spec_mantissa() as int, self.spec_scale() as nat)
    }
}

/// A decimal is determined by its mantissa and scale: two decimals with the
/// same view are the same decimal.
pub proof fn lemma_view_injective(a: Decimal, b: Decimal)
    requires
        a@ == b@,
    ensures
        a == b,
{
}

/// Whether a mantissa and a scale can form a `Decimal`.
pub open spec fn decimal_parts_valid(m: int, s: int) -> bool {
    -MAX_MANTISSA <= m <= MAX_MANTISSA && 0 <= s <= MAX_SCALE
}

/// `a < b` as numbers: `a.0 / 10^a.1 < b.0 / 10^b.1`.
pub open spec fn value_lt(a: (int, nat), b: (int, nat)) -> bool {
    a.0 * pow10(b.1) < b.0 * pow10(a.1)
}

/// `a == b` as numbers.
pub open spec fn value_eq(a: (int, nat), b: (int, nat)) -> bool {
    a.0 * pow10(b.1) == b.0 * pow10(a.1)
}

proof fn lemma_cross_lt_lt(a0: int, pa: int, b0: int, pb: int, c0: int, pc: int)
    by (nonlinear_arith)
    requires
        pa > 0,
        pb > 0,
        pc > 0,
        a0 * pb < b0 * pa,
        b0 * pc < c0 * pb,
    ensures
        a0 * pc < c0 * pa,
{
    assert(a0 * pb * pc < b0 * pa * pc);
    assert(b0 * pc * pa < c0 * pb * pa);
}

proof fn lemma_cross_eq_lt(a0: int, pa: int, b0: int, pb: int, c0: int, pc: int)
    by (nonlinear_arith)
    requires
        pa > 0,
        pb > 0,
        pc > 0,
        a0 * pb == b0 * pa,
        b0 * pc < c0 * pb,
    ensures
        a0 * pc < c0 * pa,
{
    assert(a0 * pb * pc == b0 * pa * pc);
    assert(b0 * pc * pa < c0 * pb * pa);
}

proof fn lemma_cross_lt_eq(a0: int, pa: int, b0: int, pb: int, c0: int, pc: int)
    by (nonlinear_arith)
    requires
        pa > 0,
        pb > 0,
        pc > 0,
        a0 * pb < b0 * pa,
        b0 * pc == c0 * pb,
    ensures
        a0 * pc < c0 * pa,
{
    assert(a0 * pb * pc < b0 * pa * pc);
    assert(b0 * pc * pa == c0 * pb * pa);
}

/// `value_lt` is a strict weak order: irreflexive, asymmetric, transitive,
/// and numbers that neither precede the other are interchangeable on either side.
pub proof fn lemma_value_lt_order(a: (int, nat), b: (int, nat), c: (int, nat))
    ensures
        value_lt(a, b) && value_lt(b, c) ==> value_lt(a, c),
        !value_lt(a, b) && !value_lt(b, a) && value_lt(b, c) ==> value_lt(a, c),
        value_lt(a, b) && !value_lt(b, c) && !value_lt(c, b) ==> value_lt(a, c),
        !value_lt(a, a),
        value_lt(a, b) ==> !value_lt(b, a),
{
    lemma_pow10_positive(a.1);
    lemma_pow10_positive(b.1);
    lemma_pow10_positive(c.1);
    let (pa, pb, pc) = (pow10(a.1), pow10(b.1), pow10(c.1));
    if value_lt(a, b) && value_lt(b, c) {
        lemma_cross_lt_lt(a.0, pa, b.0, pb, c.0, pc);
    }
    if !value_lt(a, b) && !value_lt(b, a) && value_lt(b, c) {
        lemma_cross_eq_lt(a.0, pa, b.0, pb, c.0, pc);
    }
    if value_lt(a, b) && !value_lt(b, c) && !value_lt(c, b) {
        lemma_cross_lt_eq(a.0, pa, b.0, pb, c.0, pc);
    }
}

/// What `rust_decimal::Decimal::from_str` makes of a string, as mantissa and
/// scale, or `None` where it returns an error.
pub uninterp spec fn decimal_from_str(s: Seq<char>) -> Option<(int, nat)>;

/// What `rust_decimal::Decimal::checked_add` returns for two decimals.
pub uninterp spec fn decimal_add(a: (int, nat), b: (int, nat)) -> Option<(int, nat)>;

/// What `rust_decimal::Decimal::checked_sub` returns for two decimals.
pub uninterp spec fn decimal_sub(a: (int, nat), b: (int, nat)) -> Option<(int, nat)>;

/// What `rust_decimal::Decimal::checked_mul` returns for two decimals.
pub uninterp spec fn decimal_mul(a: (int, nat), b: (int, nat)) -> Option<(int, nat)>;

/// What `rust_decimal::Decimal::checked_div` returns for two decimals.
pub uninterp spec fn decimal_div(a: (int, nat), b: (int, nat)) -> Option<(int, nat)>;

/// The number a string denotes, or zero where it is not a decimal
/// (`Decimal::from_str(s).unwrap_or_default()`).
pub open spec fn decimal_or_zero(s: Seq<char>) -> (int, nat) {
    match decimal_from_str(s) {
        Some(v) => v,
        None => (0, 0),
    }
}

impl Decimal {
    #[verifier::type_invariant]
    spec fn well_formed(self) -> bool {
        decimal_parts_valid(self.mantissa as int, self.scale as int)
    }

    pub closed spec fn spec_mantissa(&self) -> i128 {
        self.mantissa
    }

    pub closed spec fn spec_scale(&self) -> u32 {
        self.scale
    }

    /// The decimal `mantissa / 10^scale`, or `None` where the mantissa has more
    /// than 96 bits or the scale exceeds 28.
    pub fn from_parts(mantissa: i128, scale: u32) -> (r: Option<Decimal>)
        ensures
            r is Some <==> decimal_parts_valid(mantissa as int, scale as int),
            r matches Some(d) ==> d@ == (mantissa as int, scale as nat),
    {
        if -MAX_MANTISSA <= mantissa && mantissa <= MAX_MANTISSA && scale <= MAX_SCALE {
            Some(Decimal { mantissa, scale })
        } else {
            None
        }
    }

    pub fn mantissa(&self) -> (r: i128)
        ensures
            r as int == self@.0,
            decimal_parts_valid(self@.0, self@.1 as int),
    {
        proof {
            use_type_invariant(self);
        }
        self.mantissa
    }

    pub fn scale(&self) -> (r: u32)
        ensures
            r as nat == self@.1,
    {
        self.scale
    }

    /// Zero.
    pub fn zero() -> (r: Decimal)
        ensures
            r@ == (0int, 0nat),
    {
        Decimal { mantissa: 0, scale: 0 }
    }

    /// Two.
    pub fn two() -> (r: Decimal)
        ensures
            r@ == (2int, 0nat),
    {
        Decimal { mantissa: 2, scale: 0 }
    }

    /// One hundred.
    pub fn one_hundred() -> (r: Decimal)
        ensures
            r@ == (100int, 0nat),
    {
        Decimal { mantissa: 100, scale: 0 }
    }

    /// The integer `v`.
    pub fn from_u64(v: u64) -> (r: Decimal)
        ensures
            r@ == (v as int, 0nat),
    {
        Decimal { mantissa: v as i128, scale: 0 }
    }

    /// Whether the number is zero.
    pub fn is_zero(&self) -> (r: bool)
        ensures
            r == (self@.0 == 0),
    {
        self.mantissa == 0
    }

    /// The negated number: the same scale, the mantissa negated.
    pub fn neg(&self) -> (r: Decimal)
        ensures
            r@ == (-self@.0, self@.1),
    {
        proof {
            use_type_invariant(self);
        }
        Decimal { mantissa: -self.mantissa, scale: self.scale }
    }

    /// Whether `self < other` as numbers.
    pub fn lt(&self, other: &Decimal) -> (r: bool)
        ensures
            r == value_lt(self@, other@),
    {
        decimal_less_than(self, other)
    }

    /// The decimal text of the number, as `rust_decimal` prints it; parsing
    /// the text gives the number back, with the same scale.
    pub fn to_text(&self) -> (r: String)
        ensures
            r@ == decimal_display(self@),
            decimal_from_str(r@) == Some(self@),
    {
        decimal_to_string(self)
    }

    /// Parses a decimal number; `None` where `rust_decimal` rejects the text.
    pub fn parse(s: &str) -> (r: Option<Decimal>)
        ensures
            match r {
                Some(d) => decimal_from_str(s@) == Some(d@),
                None => decimal_from_str(s@) is None,
            },
    {
        decimal_parse(s)
    }

    /// Parses a decimal number, zero where the text is not one.
    pub fn parse_or_zero(s: &str) -> (r: Decimal)
        ensures
            r@ == decimal_or_zero(s@),
    {
        match decimal_parse(s) {
            Some(d) => d,
            None => Decimal::zero(),
        }
    }

    /// `self + other`, `None` on overflow.
    pub fn checked_add(&self, other: &Decimal) -> (r: Option<Decimal>)
        ensures
            r matches Some(d) ==> decimal_add(self@, other@) == Some(d@),
            r is None ==> decimal_add(self@, other@) is None,
    {
        decimal_checked_add(self, other)
    }

    /// `self - other`, `None` on overflow.
    pub fn checked_sub(&self, other: &Decimal) -> (r: Option<Decimal>)
        ensures
            r matches Some(d) ==> decimal_sub(self@, other@) == Some(d@),
            r is None ==> decimal_sub(self@, other@) is None,
    {
        decimal_checked_sub(self, other)
    }

    /// `self * other`, `None` on overflow.
    pub fn checked_mul(&self, other: &Decimal) -> (r: Option<Decimal>)
        ensures
            r matches Some(d) ==> decimal_mul(self@, other@) == Some(d@),
            r is None ==> decimal_mul(self@, other@) is None,
    {
        decimal_checked_mul(self, other)
    }

    /// `self / other`, `None` on overflow or division by zero.
    pub fn checked_div(&self, other: &Decimal) -> (r: Option<Decimal>)
        ensures
            r matches Some(d) ==> decimal_div(self@, other@) == Some(d@),
            r is None ==> decimal_div(self@, other@) is None,
    {
        decimal_checked_div(self, other)
    }
}

/// `n` zeros.
pub open spec fn zeros(n: nat) -> Seq<char> {
    Seq::new(n, |_i: int| '0')
}

/// How `rust_decimal` prints a number (its `Display` without a precision):
/// a `-` when negative, the integer digits (`0` when there are none), then,
/// when the scale is positive, a point and exactly `scale` fractional digits.
pub open spec fn decimal_display(v: (int, nat)) -> Seq<char> {
    let digits = decimal_text((if v.0 < 0 { -v.0 } else { v.0 }) as nat);
    let padded = if digits.len() < v.1 {
        zeros((v.1 - digits.len()) as nat) + digits
    } else {
        digits
    };
    let whole = padded.subrange(0, padded.len() - v.1);
    let frac = padded.subrange(padded.len() - v.1, padded.len() as int);
    (if v.0 < 0 {
        "-"@
    } else {
        Seq::empty()
    }) + (if whole.len() == 0 {
        "0"@
    } else {
        whole
    }) + (if v.1 > 0 {
        "."@ + frac
    } else {
        Seq::empty()
    })
}

/// Calls `rust_decimal::Decimal::from_str`; the result is the mantissa and the
/// scale that the parsed decimal reports, as named by `decimal_from_str`.
#[verifier::external_body]
fn decimal_parse(s: &str) -> (r: Option<Decimal>)
    ensures
        match r {
            Some(d) => decimal_from_str(s@) == Some(d@),
            None => decimal_from_str(s@) is None,
        },
{
    match <rust_decimal::Decimal as core::str::FromStr>::from_str(s) {
        Ok(d) => Some(Decimal { mantissa: d.mantissa(), scale: d.scale() }),
        Err(_) => None,
    }
}

/// Calls `rust_decimal::Decimal::checked_add`, whose result is named by `decimal_add`.
#[verifier::external_body]
fn decimal_checked_add(a: &Decimal, b: &Decimal) -> (r: Option<Decimal>)
    ensures
        r matches Some(d) ==> decimal_add(a@, b@) == Some(d@),
        r is None ==> decimal_add(a@, b@) is None,
{
    let x = rust_decimal::Decimal::from_i128_with_scale(a.mantissa, a.scale);
    let y = rust_decimal::Decimal::from_i128_with_scale(b.mantissa, b.scale);
    x.checked_add(y).map(|d| Decimal { mantissa: d.mantissa(), scale: d.scale() })
}

/// Calls `rust_decimal::Decimal::checked_sub`, whose result is named by `decimal_sub`.
#[verifier::external_body]
fn decimal_checked_sub(a: &Decimal, b: &Decimal) -> (r: Option<Decimal>)
    ensures
        r matches Some(d) ==> decimal_sub(a@, b@) == Some(d@),
        r is None ==> decimal_sub(a@, b@) is None,
{
    let x = rust_decimal::Decimal::from_i128_with_scale(a.mantissa, a.scale);
    let y = rust_decimal::Decimal::from_i128_with_scale(b.mantissa, b.scale);
    x.checked_sub(y).map(|d| Decimal { mantissa: d.mantissa(), scale: d.scale() })
}

/// Calls `rust_decimal::Decimal::checked_mul`, whose result is named by `decimal_mul`.
#[verifier::external_body]
fn decimal_checked_mul(a: &Decimal, b: &Decimal) -> (r: Option<Decimal>)
    ensures
        r matches Some(d) ==> decimal_mul(a@, b@) == Some(d@),
        r is None ==> decimal_mul(a@, b@) is None,
{
    let x = rust_decimal::Decimal::from_i128_with_scale(a.mantissa, a.scale);
    let y = rust_decimal::Decimal::from_i128_with_scale(b.mantissa, b.scale);
    x.checked_mul(y).map(|d| Decimal { mantissa: d.mantissa(), scale: d.scale() })
}

/// Calls `rust_decimal::Decimal::checked_div`, whose result is named by `decimal_div`.
#[verifier::external_body]
fn decimal_checked_div(a: &Decimal, b: &Decimal) -> (r: Option<Decimal>)
    ensures
        r matches Some(d) ==> decimal_div(a@, b@) == Some(d@),
        r is None ==> decimal_div(a@, b@) is None,
{
    let x = rust_decimal::Decimal::from_i128_with_scale(a.mantissa, a.scale);
    let y = rust_decimal::Decimal::from_i128_with_scale(b.mantissa, b.scale);
    x.checked_div(y).map(|d| Decimal { mantissa: d.mantissa(), scale: d.scale() })
}

/// Calls `rust_decimal::Decimal::to_string`, which prints the number as
/// `decimal_display` states: the digits of the mantissa with exactly `scale`
/// fractional digits.  `from_str` reads such a text back digit by digit, so
/// the text parses to the same mantissa and scale.
#[verifier::external_body]
fn decimal_to_string(a: &Decimal) -> (r: String)
    ensures
        r@ == decimal_display(a@),
        decimal_from_str(r@) == Some(a@),
{
    rust_decimal::Decimal::from_i128_with_scale(a.mantissa, a.scale).to_string()
}

/// Calls `<rust_decimal::Decimal as PartialOrd>::lt`, which compares the two
/// numbers by value (zero is equal to zero whatever its sign).
#[verifier::external_body]
fn decimal_less_than(a: &Decimal, b: &Decimal) -> (r: bool)
    ensures
        r == value_lt(a@, b@),
{
    let x = rust_decimal::Decimal::from_i128_with_scale(a.mantissa, a.scale);
    let y = rust_decimal::Decimal::from_i128_with_scale(b.mantissa, b.scale);
    x < y
}

} // verus!
