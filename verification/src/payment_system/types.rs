//! Identifiers and the decimal amount type used throughout the payment system.
//!
//! An [`Amount`] holds a decimal number the way `rust_decimal::Decimal` does:
//! a signed mantissa of at most 96 bits and a scale (the number of decimal
//! places) between 0 and 28. Its value is `mantissa / 10^scale`. All arithmetic
//! and formatting is done by `rust_decimal`.
use crate::payment_system::format::decimal_text;
use rust_decimal::Decimal;
use vstd::prelude::*;
use vstd::std_specs::cmp::PartialEqSpecImpl;

verus! {

/// Identifies a client (and its account).
pub type ClientId = u16;

/// Identifies a transaction.
pub type TransactionId = u32;

/// The largest magnitude of a decimal mantissa: 2^96 - 1.
pub const MAX_MANTISSA: i128 = 79228162514264337593543950335i128;

/// The largest number of decimal places of a decimal number.
pub const MAX_SCALE: u32 = 28u32;

/// 10 to the power `n`.
pub open spec fn pow10(n: nat) -> int
    decreases n,
{
    if n == 0 {
        1
    } else {
        10 * pow10((n - 1) as nat)
    }
}

/// The value of the decimal `m / 10^s`, counted in units of 10^-28.
pub open spec fn units(m: int, s: nat) -> int {
    m * pow10((28 - s) as nat)
}

/// Whether a (mantissa, scale) pair is a decimal that can be represented.
pub open spec fn parts_ok(p: (int, nat)) -> bool {
    -MAX_MANTISSA <= p.0 <= MAX_MANTISSA && p.1 <= 28
}

/// The absolute value of an integer.
pub open spec fn abs(x: int) -> int {
    if x < 0 {
        -x
    } else {
        x
    }
}

/// The larger of two natural numbers.
pub open spec fn max_nat(a: nat, b: nat) -> nat {
    if a < b {
        b
    } else {
        a
    }
}

/// What `rust_decimal` returns for the checked sum of two decimals, given and
/// returned as (mantissa, scale) pairs.
pub uninterp spec fn decimal_checked_add(a: (int, nat), b: (int, nat)) -> Option<(int, nat)>;

/// What `rust_decimal` returns for the checked difference of two decimals, given
/// and returned as (mantissa, scale) pairs.
pub uninterp spec fn decimal_checked_sub(a: (int, nat), b: (int, nat)) -> Option<(int, nat)>;

/// A decimal amount of money. Two amounts are equal when their values are,
/// whatever their scales (`1.5 == 1.50`), as for `Decimal`.
#[derive(Clone, Copy, Debug)]
pub struct Amount {
    mantissa: i128,
    scale: u32,
}

impl View for Amount {
    type V = int;

    /// The value of the amount, in units of 10^-28.
    open spec fn view(&self) -> int {
        units(self.parts().0, self.parts().1)
    }
}

/// Whether the exact value `v` (in units of 10^-28) can be held by a decimal of scale `s`.
pub open spec fn fits_at_scale(v: int, s: nat) -> bool {
    abs(v) <= MAX_MANTISSA * pow10((28 - s) as nat)
}

/// Whether `rust_decimal` can hold the exact sum of `a` and `b` at the larger of their scales.
pub open spec fn sum_fits(a: Amount, b: Amount) -> bool {
    fits_at_scale(a@ + b@, max_nat(a.parts().1, b.parts().1))
}

/// Whether `rust_decimal` can hold the exact difference of `a` and `b` at the larger of their scales.
pub open spec fn difference_fits(a: Amount, b: Amount) -> bool {
    fits_at_scale(a@ - b@, max_nat(a.parts().1, b.parts().1))
}

/// The sum of two amounts as `rust_decimal` computes it; `None` where it overflows.
pub open spec fn amount_add(a: Amount, b: Amount) -> Option<Amount> {
    match decimal_checked_add(a.parts(), b.parts()) {
        Some(p) => Some(Amount::from_parts(p)),
        None => None,
    }
}

/// The difference of two amounts as `rust_decimal` computes it; `None` where it overflows.
pub open spec fn amount_sub(a: Amount, b: Amount) -> Option<Amount> {
    match decimal_checked_sub(a.parts(), b.parts()) {
        Some(p) => Some(Amount::from_parts(p)),
        None => None,
    }
}

/// `a + b` is computed without rounding.
pub open spec fn exact_add(a: Amount, b: Amount) -> bool {
    amount_add(a, b) matches Some(r) && r@ == a@ + b@
}

/// `a - b` is computed without rounding.
pub open spec fn exact_sub(a: Amount, b: Amount) -> bool {
    amount_sub(a, b) matches Some(r) && r@ == a@ - b@
}

impl Amount {
    #[verifier::type_invariant]
    closed spec fn inv(self) -> bool {
        parts_ok(self.parts())
    }

    /// The (mantissa, scale) pair of the amount.
    pub closed spec fn parts(self) -> (int, nat) {
        (self.mantissa as int, self.scale as nat)
    }

    /// The amount with the given (mantissa, scale) pair.
    pub closed spec fn from_parts(p: (int, nat)) -> Amount {
        Amount { mantissa: p.0 as i128, scale: p.1 as u32 }
    }

    /// `from_parts` gives back the parts it was made from.
    pub proof fn lemma_from_parts(p: (int, nat))
        requires
            parts_ok(p),
        ensures
            Amount::from_parts(p).parts() == p,
    {
    }

    /// An amount is made from its own parts.
    pub proof fn lemma_parts_from(a: Amount)
        ensures
            Amount::from_parts(a.parts()) == a,
    {
    }

    /// The amount zero.
    pub fn zero() -> (r: Amount)
        ensures
            r.parts() == (0int, 0nat),
            r@ == 0,
    {
        Amount { mantissa: 0, scale: 0 }
    }

    /// The amount `mantissa / 10^scale`, where it can be represented.
    pub fn new(mantissa: i128, scale: u32) -> (r: Option<Amount>)
        ensures
            r is Some <==> parts_ok((mantissa as int, scale as nat)),
            r matches Some(a) ==> a.parts() == (mantissa as int, scale as nat),
    {
        if -MAX_MANTISSA <= mantissa && mantissa <= MAX_MANTISSA && scale <= MAX_SCALE {
            Some(Amount { mantissa, scale })
        } else {
            None
        }
    }

    /// The signed mantissa.
    pub fn mantissa(&self) -> (r: i128)
        ensures
            r as int == self.parts().0,
            -MAX_MANTISSA <= r <= MAX_MANTISSA,
    {
        proof {
            use_type_invariant(self);
        }
        self.mantissa
    }

    /// The number of decimal places.
    pub fn scale(&self) -> (r: u32)
        ensures
            r as nat == self.parts().1,
            r <= 28,
    {
        proof {
            use_type_invariant(self);
        }
        self.scale
    }
}


/// Calls `rust_decimal::Decimal::checked_add` on the decimals that `a` and `b`
/// stand for. Trusted: its result is what `rust_decimal` returns, and where the
/// exact sum fits in 96 bits at the larger scale, `rust_decimal` returns it
/// without rounding (it rounds, by reducing the scale, only when the sum does
/// not fit). The result's scale is never above the larger scale of the two.
#[verifier::external_body]
fn decimal_add(a: Amount, b: Amount) -> (r: Option<Amount>)
    requires
        parts_ok(a.parts()),
        parts_ok(b.parts()),
    ensures
        r == amount_add(a, b),
        r matches Some(x) ==> parts_ok(x.parts()) && decimal_checked_add(a.parts(), b.parts()) == Some(x.parts()),
        r is Some ==> r.unwrap().parts().1 <= max_nat(a.parts().1, b.parts().1),
        sum_fits(a, b) ==> r is Some && r.unwrap()@ == a@ + b@,
{
    let x = Decimal::from_i128_with_scale(a.mantissa, a.scale);
    let y = Decimal::from_i128_with_scale(b.mantissa, b.scale);
    match x.checked_add(y) {
        Some(d) => Some(Amount { mantissa: d.mantissa(), scale: d.scale() }),
        None => None,
    }
}

/// Calls `rust_decimal::Decimal::checked_sub` on the decimals that `a` and `b`
/// stand for. Trusted: its result is what `rust_decimal` returns, and where the
/// exact difference fits in 96 bits at the larger scale, `rust_decimal` returns
/// it without rounding. The result's scale is never above the larger scale of
/// the two.
#[verifier::external_body]
fn decimal_sub(a: Amount, b: Amount) -> (r: Option<Amount>)
    requires
        parts_ok(a.parts()),
        parts_ok(b.parts()),
    ensures
        r == amount_sub(a, b),
        r matches Some(x) ==> parts_ok(x.parts()) && decimal_checked_sub(a.parts(), b.parts()) == Some(x.parts()),
        r is Some ==> r.unwrap().parts().1 <= max_nat(a.parts().1, b.parts().1),
        difference_fits(a, b) ==> r is Some && r.unwrap()@ == a@ - b@,
{
    let x = Decimal::from_i128_with_scale(a.mantissa, a.scale);
    let y = Decimal::from_i128_with_scale(b.mantissa, b.scale);
    match x.checked_sub(y) {
        Some(d) => Some(Amount { mantissa: d.mantissa(), scale: d.scale() }),
        None => None,
    }
}

impl Amount {
    /// The sum `self + other` as `rust_decimal` computes it, `None` where it
    /// overflows (where `Decimal`'s `+` panics).
    pub fn checked_add(self, other: Amount) -> (r: Option<Amount>)
        ensures
            r == amount_add(self, other),
            r is Some ==> r.unwrap().parts().1 <= max_nat(self.parts().1, other.parts().1),
            sum_fits(self, other) ==> exact_add(self, other),
    {
        proof {
            use_type_invariant(&self);
            use_type_invariant(&other);
        }
        let r = decimal_add(self, other);
        match r {
            Some(x) => {
                proof {
                    use_type_invariant(&x);
                }
                Some(x)
            },
            None => None,
        }
    }

    /// The difference `self - other` as `rust_decimal` computes it, `None` where
    /// it overflows (where `Decimal`'s `-` panics).
    pub fn checked_sub(self, other: Amount) -> (r: Option<Amount>)
        ensures
            r == amount_sub(self, other),
            r is Some ==> r.unwrap().parts().1 <= max_nat(self.parts().1, other.parts().1),
            difference_fits(self, other) ==> exact_sub(self, other),
    {
        proof {
            use_type_invariant(&self);
            use_type_invariant(&other);
        }
        decimal_sub(self, other)
    }
}


/// The (mantissa, scale) pair of `p` rounded to `dp` decimal places with
/// "banker's rounding": to the nearest multiple of 10^-dp, a tie going to the
/// even neighbour (6.5 to 6, 7.5 to 8). A pair with at most `dp` places is kept.
pub open spec fn round_half_even(p: (int, nat), dp: nat) -> (int, nat) {
    if p.1 <= dp {
        p
    } else {
        let d = pow10((p.1 - dp) as nat);
        let half = 5 * pow10((p.1 - dp - 1) as nat);
        let q = abs(p.0) / d;
        let r = abs(p.0) % d;
        let q2 = if r > half || (r == half && q % 2 == 1) {
            q + 1
        } else {
            q
        };
        (if p.0 < 0 {
            -q2
        } else {
            q2
        }, dp)
    }
}

/// The (mantissa, scale) pair of `p` with its trailing fractional zeros removed.
pub open spec fn strip_trailing_zeros(p: (int, nat)) -> (int, nat)
    decreases p.1,
{
    if p.1 > 0 && p.0 % 10 == 0 {
        strip_trailing_zeros((p.0 / 10, (p.1 - 1) as nat))
    } else {
        p
    }
}

/// Calls `rust_decimal::Decimal::round_dp` on the decimal that `a` stands for.
/// Trusted: the result is `a` rounded to `dp` places with banker's rounding
/// (`MidpointNearestEven`), and `a` itself where it has at most `dp` places.
#[verifier::external_body]
fn decimal_round_dp(a: Amount, dp: u32) -> (r: Amount)
    requires
        parts_ok(a.parts()),
    ensures
        r.parts() == round_half_even(a.parts(), dp as nat),
        parts_ok(r.parts()),
{
    let d = Decimal::from_i128_with_scale(a.mantissa, a.scale).round_dp(dp);
    Amount { mantissa: d.mantissa(), scale: d.scale() }
}

/// Calls `rust_decimal::Decimal::normalize` on the decimal that `a` stands for.
/// Trusted: the result has the same value with every trailing fractional zero
/// removed (zero becomes `0` with scale 0).
#[verifier::external_body]
fn decimal_normalize(a: Amount) -> (r: Amount)
    requires
        parts_ok(a.parts()),
    ensures
        r.parts() == strip_trailing_zeros(a.parts()),
        parts_ok(r.parts()),
{
    let d = Decimal::from_i128_with_scale(a.mantissa, a.scale).normalize();
    Amount { mantissa: d.mantissa(), scale: d.scale() }
}

/// Calls `Decimal`'s `Display` (through `to_string`) on the decimal that `a`
/// stands for. Trusted: the text is the sign, the whole part and exactly
/// `scale` fractional digits, as `decimal_text` spells out.
#[verifier::external_body]
fn decimal_to_string(a: Amount) -> (r: String)
    requires
        parts_ok(a.parts()),
    ensures
        r@ == decimal_text(a.parts().0, a.parts().1),
{
    Decimal::from_i128_with_scale(a.mantissa, a.scale).to_string()
}

impl Amount {
    /// The amount rounded to `dp` decimal places with banker's rounding.
    pub fn round_dp(&self, dp: u32) -> (r: Amount)
        ensures
            r.parts() == round_half_even(self.parts(), dp as nat),
    {
        proof {
            use_type_invariant(self);
        }
        decimal_round_dp(*self, dp)
    }

    /// The same value without trailing fractional zeros.
    pub fn normalize(&self) -> (r: Amount)
        ensures
            r.parts() == strip_trailing_zeros(self.parts()),
    {
        proof {
            use_type_invariant(self);
        }
        decimal_normalize(*self)
    }

    /// The decimal text of the amount, with all of its decimal places.
    pub fn to_string(&self) -> (r: String)
        ensures
            r@ == decimal_text(self.parts().0, self.parts().1),
    {
        proof {
            use_type_invariant(self);
        }
        decimal_to_string(*self)
    }

    /// Whether the amount is below zero.
    pub fn is_negative(&self) -> (r: bool)
        ensures
            r == (self@ < 0),
    {
        proof {
            use_type_invariant(self);
            lemma_pow10_positive((28 - self.parts().1) as nat);
            lemma_sign_of_units(self.parts().0, self.parts().1);
        }
        self.mantissa < 0
    }
}

/// Powers of ten are positive.
pub proof fn lemma_pow10_positive(n: nat)
    ensures
        pow10(n) > 0,
    decreases n,
{
    if n > 0 {
        lemma_pow10_positive((n - 1) as nat);
    }
}

/// The value of a decimal has the sign of its mantissa.
pub proof fn lemma_sign_of_units(m: int, s: nat)
    ensures
        (units(m, s) < 0) == (m < 0),
        (units(m, s) == 0) == (m == 0),
{
    let k = pow10((28 - s) as nat);
    lemma_pow10_positive((28 - s) as nat);
    if m < 0 {
        assert(m * k < 0) by (nonlinear_arith)
            requires
                m < 0,
                k > 0,
        ;
    } else if m > 0 {
        assert(m * k > 0) by (nonlinear_arith)
            requires
                m > 0,
                k > 0,
        ;
    } else {
        assert(m * k == 0) by (nonlinear_arith)
            requires
                m == 0,
        ;
    }
}


/// Calls `Decimal`'s `==` on the decimals that `a` and `b` stand for. Trusted:
/// `Decimal` compares values, so the result is whether the values are equal.
#[verifier::external_body]
fn decimal_eq(a: Amount, b: Amount) -> (r: bool)
    requires
        parts_ok(a.parts()),
        parts_ok(b.parts()),
    ensures
        r == (a@ == b@),
{
    Decimal::from_i128_with_scale(a.mantissa, a.scale) == Decimal::from_i128_with_scale(
        b.mantissa,
        b.scale,
    )
}

impl PartialEq for Amount {
    fn eq(&self, other: &Amount) -> (r: bool) {
        proof {
            use_type_invariant(self);
            use_type_invariant(other);
        }
        decimal_eq(*self, *other)
    }
}

impl PartialEqSpecImpl for Amount {
    open spec fn obeys_eq_spec() -> bool {
        true
    }

    open spec fn eq_spec(&self, other: &Amount) -> bool {
        self@ == other@
    }
}

} // verus!
