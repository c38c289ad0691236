//! Fixed-point decimal numbers for prices and quantities.
//!
//! A [`Decimal`] is a signed 96-bit mantissa together with a power-of-ten
//! scale between 0 and 28. Arithmetic and formatting are delegated to the
//! `rust_decimal` crate; everything else (construction, sign tests, negation)
//! is verified here.
use vstd::prelude::*;

verus! {

/// Largest scale a decimal may carry.
pub const MAX_SCALE: u32 = 28;

/// Largest magnitude of a mantissa: `2^96 - 1`.
pub const MAX_MANTISSA: i128 = 0x0000_0000_FFFF_FFFF_FFFF_FFFF_FFFF_FFFF;

/// `10^n`.
pub open spec fn pow10(n: nat) -> nat
    decreases n,
{
    if n == 0 {
        1
    } else {
        10 * pow10((n - 1) as nat)
    }
}

/// Whether `mantissa` and `scale` are the parts of a representable decimal.
pub open spec fn valid_parts(mantissa: int, scale: int) -> bool {
    &&& -MAX_MANTISSA <= mantissa <= MAX_MANTISSA
    &&& 0 <= scale <= MAX_SCALE
}

/// The sum that `rust_decimal` computes for two decimals given by their parts:
/// `None` when it reports an overflow, otherwise the parts of the result.
pub uninterp spec fn decimal_sum(am: int, asc: int, bm: int, bsc: int) -> Option<(int, int)>;

/// The difference that `rust_decimal` computes, in the same form as [`decimal_sum`].
pub uninterp spec fn decimal_difference(am: int, asc: int, bm: int, bsc: int) -> Option<(int, int)>;

/// The product that `rust_decimal` computes, in the same form as [`decimal_sum`].
pub uninterp spec fn decimal_product(am: int, asc: int, bm: int, bsc: int) -> Option<(int, int)>;

/// The quotient that `rust_decimal` computes, in the same form as
/// [`decimal_sum`]; `None` also stands for a zero divisor.
pub uninterp spec fn decimal_quotient(am: int, asc: int, bm: int, bsc: int) -> Option<(int, int)>;

/// The text that `rust_decimal` prints for the decimal with the given parts.
pub uninterp spec fn decimal_text(mantissa: int, scale: int) -> Seq<char>;

/// An exact decimal number `mantissa / 10^scale`.
#[derive(Debug, Clone, Copy)]
pub struct Decimal {
    mantissa: i128,
    scale: u32,
}

impl Decimal {
    #[verifier::type_invariant]
    spec fn in_range(self) -> bool {
        valid_parts(self.mantissa as int, self.scale as int)
    }

    /// The mantissa, as a mathematical integer.
    pub closed spec fn mantissa_of(self) -> int {
        self.mantissa as int
    }

    /// The scale: the number of decimal digits after the point.
    pub closed spec fn scale_of(self) -> int {
        self.scale as int
    }

    /// Validity of a decimal. Every value that executable code can hold is
    /// valid; the predicate matters for values that exist only in proofs.
    pub open spec fn wf(self) -> bool {
        valid_parts(self.mantissa_of(), self.scale_of())
    }

    /// The decimal with the given parts.
    pub closed spec fn from_parts(mantissa: int, scale: int) -> Decimal {
        Decimal { mantissa: mantissa as i128, scale: scale as u32 }
    }

    /// The number in units of `10^-28`: an integer that identifies the numeric
    /// value whatever the scale it is written with.
    pub open spec fn units(self) -> int {
        self.mantissa_of() * pow10((MAX_SCALE - self.scale_of()) as nat)
    }

    /// Numeric equality: `1.0` and `1.00` are the same number.
    pub open spec fn same_value(self, other: Decimal) -> bool {
        self.units() == other.units()
    }

    /// The sign of `self - other`: -1, 0 or 1.
    pub open spec fn spec_compare(self, other: Decimal) -> int {
        if self.units() < other.units() {
            -1
        } else if self.units() == other.units() {
            0
        } else {
            1
        }
    }

    /// A decimal rebuilt from the parts of an arithmetic result.
    pub open spec fn lift(parts: Option<(int, int)>) -> Option<Decimal> {
        match parts {
            Some((m, s)) => Some(Decimal::from_parts(m, s)),
            None => None,
        }
    }

    /// `self + rhs` as `rust_decimal` computes it.
    pub open spec fn spec_add(self, rhs: Decimal) -> Option<Decimal> {
        Decimal::lift(
            decimal_sum(self.mantissa_of(), self.scale_of(), rhs.mantissa_of(), rhs.scale_of()),
        )
    }

    /// `self - rhs` as `rust_decimal` computes it.
    pub open spec fn spec_sub(self, rhs: Decimal) -> Option<Decimal> {
        Decimal::lift(
            decimal_difference(
                self.mantissa_of(),
                self.scale_of(),
                rhs.mantissa_of(),
                rhs.scale_of(),
            ),
        )
    }

    /// `self * rhs` as `rust_decimal` computes it.
    pub open spec fn spec_mul(self, rhs: Decimal) -> Option<Decimal> {
        Decimal::lift(
            decimal_product(
                self.mantissa_of(),
                self.scale_of(),
                rhs.mantissa_of(),
                rhs.scale_of(),
            ),
        )
    }

    /// `self / rhs` as `rust_decimal` computes it.
    pub open spec fn spec_div(self, rhs: Decimal) -> Option<Decimal> {
        Decimal::lift(
            decimal_quotient(
                self.mantissa_of(),
                self.scale_of(),
                rhs.mantissa_of(),
                rhs.scale_of(),
            ),
        )
    }

    /// `-self`.
    pub open spec fn spec_neg(self) -> Decimal {
        Decimal::from_parts(-self.mantissa_of(), self.scale_of())
    }

    /// The text of the decimal as `rust_decimal` prints it.
    pub open spec fn spec_text(self) -> Seq<char> {
        decimal_text(self.mantissa_of(), self.scale_of())
    }

    /// Whether `self + rhs` is computed without overflow or rounding.
    pub open spec fn adds_exactly(self, rhs: Decimal) -> bool {
        self.spec_add(rhs) matches Some(r) && r.units() == self.units() + rhs.units()
    }

    /// Whether `self - rhs` is computed without overflow or rounding.
    pub open spec fn subtracts_exactly(self, rhs: Decimal) -> bool {
        self.spec_sub(rhs) matches Some(r) && r.units() == self.units() - rhs.units()
    }

    /// Whether `self * rhs` is computed without overflow or rounding.
    pub open spec fn multiplies_exactly(self, rhs: Decimal) -> bool {
        self.spec_mul(rhs) matches Some(r) && r.units() * pow10(MAX_SCALE as nat) == self.units()
            * rhs.units()
    }

    /// Whether `self / rhs` is computed without overflow or rounding.
    pub open spec fn divides_exactly(self, rhs: Decimal) -> bool {
        self.spec_div(rhs) matches Some(r) && r.units() * rhs.units() == self.units() * pow10(
            MAX_SCALE as nat,
        )
    }

    /// Rebuilding a valid decimal from its own parts gives it back.
    pub proof fn lemma_from_parts(self)
        requires
            self.wf(),
        ensures
            Decimal::from_parts(self.mantissa_of(), self.scale_of()) == self,
    {
    }

    /// Builds `mantissa / 10^scale`, or nothing when the parts are out of range.
    pub fn new(mantissa: i128, scale: u32) -> (r: Option<Decimal>)
        ensures
            r == (if valid_parts(mantissa as int, scale as int) {
                Some(Decimal::from_parts(mantissa as int, scale as int))
            } else {
                None
            }),
            r matches Some(d) ==> d.mantissa_of() == mantissa && d.scale_of() == scale && d.wf(),
    {
        if scale <= MAX_SCALE && -MAX_MANTISSA <= mantissa && mantissa <= MAX_MANTISSA {
            Some(Decimal { mantissa, scale })
        } else {
            None
        }
    }

    /// The integer `value`, with scale 0.
    pub fn from_u64(value: u64) -> (d: Decimal)
        ensures
            d == Decimal::from_parts(value as int, 0),
            d.mantissa_of() == value,
            d.scale_of() == 0,
            d.wf(),
    {
        Decimal { mantissa: value as i128, scale: 0 }
    }

    /// Zero, with scale 0.
    pub fn zero() -> (d: Decimal)
        ensures
            d == Decimal::from_parts(0, 0),
            d.mantissa_of() == 0,
            d.scale_of() == 0,
            d.units() == 0,
            d.wf(),
    {
        proof {
            lemma_pow10_positive(MAX_SCALE as nat);
            lemma_sign_of_product(0, pow10(MAX_SCALE as nat) as int);
        }
        Decimal { mantissa: 0, scale: 0 }
    }

    /// One, with scale 0.
    pub fn one() -> (d: Decimal)
        ensures
            d == Decimal::from_parts(1, 0),
            d.mantissa_of() == 1,
            d.scale_of() == 0,
            d.wf(),
    {
        Decimal { mantissa: 1, scale: 0 }
    }

    /// Two, with scale 0.
    pub fn two() -> (d: Decimal)
        ensures
            d == Decimal::from_parts(2, 0),
            d.mantissa_of() == 2,
            d.scale_of() == 0,
            d.wf(),
    {
        Decimal { mantissa: 2, scale: 0 }
    }

    pub fn mantissa(&self) -> (m: i128)
        ensures
            m == self.mantissa_of(),
            self.wf(),
    {
        proof {
            use_type_invariant(self);
        }
        self.mantissa
    }

    pub fn scale(&self) -> (s: u32)
        ensures
            s == self.scale_of(),
            self.wf(),
    {
        proof {
            use_type_invariant(self);
        }
        self.scale
    }

    /// Whether the number is zero.
    pub fn is_zero(&self) -> (b: bool)
        ensures
            b == (self.units() == 0),
            b == (self.mantissa_of() == 0),
    {
        proof {
            use_type_invariant(self);
            lemma_pow10_positive((MAX_SCALE - self.scale_of()) as nat);
            lemma_sign_of_product(self.mantissa_of(), pow10((MAX_SCALE - self.scale_of()) as nat) as int);
        }
        self.mantissa == 0
    }

    /// Whether the number is negative.
    pub fn is_negative(&self) -> (b: bool)
        ensures
            b == (self.units() < 0),
            b == (self.mantissa_of() < 0),
    {
        proof {
            use_type_invariant(self);
            lemma_pow10_positive((MAX_SCALE - self.scale_of()) as nat);
            lemma_sign_of_product(self.mantissa_of(), pow10((MAX_SCALE - self.scale_of()) as nat) as int);
        }
        self.mantissa < 0
    }

    /// Whether the number is positive.
    pub fn is_positive(&self) -> (b: bool)
        ensures
            b == (self.units() > 0),
            b == (self.mantissa_of() > 0),
    {
        proof {
            use_type_invariant(self);
            lemma_pow10_positive((MAX_SCALE - self.scale_of()) as nat);
            lemma_sign_of_product(self.mantissa_of(), pow10((MAX_SCALE - self.scale_of()) as nat) as int);
        }
        self.mantissa > 0
    }

    /// The number with its sign flipped; the scale stays.
    pub fn neg(&self) -> (d: Decimal)
        ensures
            d == self.spec_neg(),
            d.wf(),
            d.units() == -self.units(),
    {
        proof {
            use_type_invariant(self);
            lemma_negated_product(self.mantissa_of(), pow10((MAX_SCALE - self.scale_of()) as nat) as int);
        }
        Decimal { mantissa: -self.mantissa, scale: self.scale }
    }

    /// Orders two decimals by value: -1, 0 or 1 as `self` is below, equal to
    /// or above `other`.
    pub fn compare(&self, other: &Decimal) -> (r: i8)
        ensures
            r == self.spec_compare(*other),
    {
        proof {
            use_type_invariant(self);
            use_type_invariant(other);
        }
        outside_order(self, other)
    }

    /// Numeric equality.
    pub fn equals(&self, other: &Decimal) -> (b: bool)
        ensures
            b == self.same_value(*other),
    {
        self.compare(other) == 0
    }

    /// `self < other` by value.
    pub fn less_than(&self, other: &Decimal) -> (b: bool)
        ensures
            b == (self.units() < other.units()),
    {
        self.compare(other) < 0
    }

    /// `self <= other` by value.
    pub fn at_most(&self, other: &Decimal) -> (b: bool)
        ensures
            b == (self.units() <= other.units()),
    {
        self.compare(other) <= 0
    }

    /// The sum, or nothing when it overflows.
    pub fn checked_add(&self, rhs: &Decimal) -> (r: Option<Decimal>)
        ensures
            r == self.spec_add(*rhs),
            r matches Some(d) ==> d.wf(),
    {
        proof {
            use_type_invariant(self);
            use_type_invariant(rhs);
        }
        let r = outside_add(self, rhs);
        proof {
            if let Some(d) = r {
                d.lemma_from_parts();
            }
        }
        r
    }

    /// The difference, or nothing when it overflows.
    pub fn checked_sub(&self, rhs: &Decimal) -> (r: Option<Decimal>)
        ensures
            r == self.spec_sub(*rhs),
            r matches Some(d) ==> d.wf(),
    {
        proof {
            use_type_invariant(self);
            use_type_invariant(rhs);
        }
        let r = outside_sub(self, rhs);
        proof {
            if let Some(d) = r {
                d.lemma_from_parts();
            }
        }
        r
    }

    /// The product, or nothing when it overflows.
    pub fn checked_mul(&self, rhs: &Decimal) -> (r: Option<Decimal>)
        ensures
            r == self.spec_mul(*rhs),
            r matches Some(d) ==> d.wf(),
    {
        proof {
            use_type_invariant(self);
            use_type_invariant(rhs);
        }
        let r = outside_mul(self, rhs);
        proof {
            if let Some(d) = r {
                d.lemma_from_parts();
            }
        }
        r
    }

    /// The quotient, or nothing when the divisor is zero or the result overflows.
    pub fn checked_div(&self, rhs: &Decimal) -> (r: Option<Decimal>)
        ensures
            r == self.spec_div(*rhs),
            r matches Some(d) ==> d.wf(),
            rhs.units() == 0 ==> r.is_none(),
    {
        proof {
            use_type_invariant(self);
            use_type_invariant(rhs);
        }
        let r = outside_div(self, rhs);
        proof {
            lemma_pow10_positive((MAX_SCALE - rhs.scale_of()) as nat);
            lemma_sign_of_product(rhs.mantissa_of(), pow10((MAX_SCALE - rhs.scale_of()) as nat) as int);
            if let Some(d) = r {
                d.lemma_from_parts();
            }
        }
        r
    }

    /// The decimal in plain notation, for example `-12.50`.
    pub fn to_text(&self) -> (s: String)
        ensures
            s@ == self.spec_text(),
    {
        proof {
            use_type_invariant(self);
        }
        outside_text(self)
    }
}

impl PartialEq for Decimal {
    /// Numeric equality: `1.0` and `1.00` are equal.
    fn eq(&self, other: &Decimal) -> (r: bool) {
        self.equals(other)
    }
}

impl Eq for Decimal {

}

impl vstd::std_specs::cmp::PartialEqSpecImpl for Decimal {
    open spec fn obeys_eq_spec() -> bool {
        true
    }

    open spec fn eq_spec(&self, other: &Decimal) -> bool {
        self.same_value(*other)
    }
}

impl PartialOrd for Decimal {
    /// Numeric order.
    fn partial_cmp(&self, other: &Decimal) -> (r: Option<std::cmp::Ordering>) {
        let sign = self.compare(other);
        if sign < 0 {
            Some(std::cmp::Ordering::Less)
        } else if sign == 0 {
            Some(std::cmp::Ordering::Equal)
        } else {
            Some(std::cmp::Ordering::Greater)
        }
    }
}

impl vstd::std_specs::cmp::PartialOrdSpecImpl for Decimal {
    open spec fn obeys_partial_cmp_spec() -> bool {
        true
    }

    open spec fn partial_cmp_spec(&self, other: &Decimal) -> Option<std::cmp::Ordering> {
        if self.units() < other.units() {
            Some(std::cmp::Ordering::Less)
        } else if self.units() == other.units() {
            Some(std::cmp::Ordering::Equal)
        } else {
            Some(std::cmp::Ordering::Greater)
        }
    }
}

/// Powers of ten are positive.
pub proof fn lemma_pow10_positive(n: nat)
    ensures
        pow10(n) > 0,
    decreases n,
{
    if n > 0 {
        lemma_pow10_positive((n - 1) as nat);
    }
}

/// A product with a positive factor has the sign of the other factor.
pub proof fn lemma_sign_of_product(m: int, p: int)
    requires
        p > 0,
    ensures
        (m * p == 0) == (m == 0),
        (m * p < 0) == (m < 0),
        (m * p > 0) == (m > 0),
{
    assert((m * p == 0) == (m == 0) && (m * p < 0) == (m < 0) && (m * p > 0) == (m > 0))
        by (nonlinear_arith)
        requires
            p > 0,
    ;
}

/// Negating a factor negates the product.
pub proof fn lemma_negated_product(m: int, p: int)
    ensures
        (-m) * p == -(m * p),
{
    assert((-m) * p == -(m * p)) by (nonlinear_arith);
}

/// Calls `rust_decimal::Decimal::cmp` on the two numbers. `rust_decimal`
/// orders decimals by numeric value, whatever their scales; the contract says
/// which of the three outcomes comes back in terms of the values in units of
/// `10^-28`.
#[verifier::external_body]
fn outside_order(a: &Decimal, b: &Decimal) -> (r: i8)
    requires
        a.wf(),
        b.wf(),
    ensures
        r == a.spec_compare(*b),
{
    let x = rust_decimal::Decimal::from_i128_with_scale(a.mantissa, a.scale);
    let y = rust_decimal::Decimal::from_i128_with_scale(b.mantissa, b.scale);
    match x.cmp(&y) {
        std::cmp::Ordering::Less => -1,
        std::cmp::Ordering::Equal => 0,
        std::cmp::Ordering::Greater => 1,
    }
}

/// Calls `rust_decimal::Decimal::checked_add`. The contract names the result
/// ([`decimal_sum`]) and says that a result has a mantissa within 96 bits and
/// a scale of at most 28; it claims nothing about rounding.
#[verifier::external_body]
fn outside_add(a: &Decimal, b: &Decimal) -> (r: Option<Decimal>)
    requires
        a.wf(),
        b.wf(),
    ensures
        r.is_some() == decimal_sum(a.mantissa_of(), a.scale_of(), b.mantissa_of(), b.scale_of()).is_some(),
        r matches Some(d) ==> d.wf() && decimal_sum(
            a.mantissa_of(),
            a.scale_of(),
            b.mantissa_of(),
            b.scale_of(),
        ) == Some((d.mantissa_of(), d.scale_of())),
{
    let x = rust_decimal::Decimal::from_i128_with_scale(a.mantissa, a.scale);
    let y = rust_decimal::Decimal::from_i128_with_scale(b.mantissa, b.scale);
    match x.checked_add(y) {
        Some(d) => Some(Decimal { mantissa: d.mantissa(), scale: d.scale() }),
        None => None,
    }
}

/// Calls `rust_decimal::Decimal::checked_sub`. The contract names the result
/// ([`decimal_difference`]) and says that a result has a mantissa within 96
/// bits and a scale of at most 28; it claims nothing about rounding.
#[verifier::external_body]
fn outside_sub(a: &Decimal, b: &Decimal) -> (r: Option<Decimal>)
    requires
        a.wf(),
        b.wf(),
    ensures
        r.is_some() == decimal_difference(
            a.mantissa_of(),
            a.scale_of(),
            b.mantissa_of(),
            b.scale_of(),
        ).is_some(),
        r matches Some(d) ==> d.wf() && decimal_difference(
            a.mantissa_of(),
            a.scale_of(),
            b.mantissa_of(),
            b.scale_of(),
        ) == Some((d.mantissa_of(), d.scale_of())),
{
    let x = rust_decimal::Decimal::from_i128_with_scale(a.mantissa, a.scale);
    let y = rust_decimal::Decimal::from_i128_with_scale(b.mantissa, b.scale);
    match x.checked_sub(y) {
        Some(d) => Some(Decimal { mantissa: d.mantissa(), scale: d.scale() }),
        None => None,
    }
}

/// Calls `rust_decimal::Decimal::checked_mul`. The contract names the result
/// ([`decimal_product`]) and says that a result has a mantissa within 96 bits
/// and a scale of at most 28; it claims nothing about rounding.
#[verifier::external_body]
fn outside_mul(a: &Decimal, b: &Decimal) -> (r: Option<Decimal>)
    requires
        a.wf(),
        b.wf(),
    ensures
        r.is_some() == decimal_product(
            a.mantissa_of(),
            a.scale_of(),
            b.mantissa_of(),
            b.scale_of(),
        ).is_some(),
        r matches Some(d) ==> d.wf() && decimal_product(
            a.mantissa_of(),
            a.scale_of(),
            b.mantissa_of(),
            b.scale_of(),
        ) == Some((d.mantissa_of(), d.scale_of())),
{
    let x = rust_decimal::Decimal::from_i128_with_scale(a.mantissa, a.scale);
    let y = rust_decimal::Decimal::from_i128_with_scale(b.mantissa, b.scale);
    match x.checked_mul(y) {
        Some(d) => Some(Decimal { mantissa: d.mantissa(), scale: d.scale() }),
        None => None,
    }
}

/// Calls `rust_decimal::Decimal::checked_div`. The contract names the result
/// ([`decimal_quotient`]), says that a zero divisor gives nothing, and that a
/// result has a mantissa within 96 bits and a scale of at most 28; it claims
/// nothing about rounding.
#[verifier::external_body]
fn outside_div(a: &Decimal, b: &Decimal) -> (r: Option<Decimal>)
    requires
        a.wf(),
        b.wf(),
    ensures
        r.is_some() == decimal_quotient(
            a.mantissa_of(),
            a.scale_of(),
            b.mantissa_of(),
            b.scale_of(),
        ).is_some(),
        r matches Some(d) ==> d.wf() && decimal_quotient(
            a.mantissa_of(),
            a.scale_of(),
            b.mantissa_of(),
            b.scale_of(),
        ) == Some((d.mantissa_of(), d.scale_of())),
        b.mantissa_of() == 0 ==> r.is_none(),
{
    let x = rust_decimal::Decimal::from_i128_with_scale(a.mantissa, a.scale);
    let y = rust_decimal::Decimal::from_i128_with_scale(b.mantissa, b.scale);
    match x.checked_div(y) {
        Some(d) => Some(Decimal { mantissa: d.mantissa(), scale: d.scale() }),
        None => None,
    }
}

/// Calls `to_string` on the `rust_decimal::Decimal` with the same parts, which
/// goes through its `Display` impl. The contract names the text
/// ([`decimal_text`]).
#[verifier::external_body]
fn outside_text(a: &Decimal) -> (s: String)
    requires
        a.wf(),
    ensures
        s@ == decimal_text(a.mantissa_of(), a.scale_of()),
{
    rust_decimal::Decimal::from_i128_with_scale(a.mantissa, a.scale).to_string()
}

} // verus!
