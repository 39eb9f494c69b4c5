//! Money amounts tagged with a currency. An amount is modelled as a
//! decimal mantissa and scale (the value is `mantissa / 10^scale`);
//! comparisons are stated as exact integer cross-products, and the decimal
//! arithmetic itself is the decimal crate's, relied on through checked
//! trusted wrappers so that no verified function can panic.

use vstd::prelude::*;

verus! {

/// The errors of money arithmetic.
#[derive(Debug, Clone, Copy, PartialEq, Eq, Structural)]
pub enum Error {
    /// Subtraction would have produced a non-positive amount.
    NegativeAmount,
}

/// The largest decimal mantissa magnitude, one beyond 96 bits.
pub const MANTISSA_LIMIT: i128 = 79228162514264337593543950336;

/// The largest decimal scale.
pub const SCALE_LIMIT: u32 = 28;

/// Ten to the `e`-th.
pub open spec fn pow10(e: nat) -> int
    decreases e,
{
    if e == 0 {
        1
    } else {
        10 * pow10((e - 1) as nat)
    }
}

pub proof fn lemma_pow10_pos(e: nat)
    ensures
        pow10(e) > 0,
    decreases e,
{
    if e > 0 {
        lemma_pow10_pos((e - 1) as nat);
    }
}

/// Whether the decimal `m1 / 10^s1` is strictly below `m2 / 10^s2`,
/// stated as an exact integer cross-product.
pub open spec fn dec_lt(m1: i128, s1: u32, m2: i128, s2: u32) -> bool {
    m1 * pow10(s2 as nat) < m2 * pow10(s1 as nat)
}

/// Equality of decimals as values (`1.0` equals `1.00`).
pub open spec fn dec_eq(m1: i128, s1: u32, m2: i128, s2: u32) -> bool {
    m1 * pow10(s2 as nat) == m2 * pow10(s1 as nat)
}

/// Relies on rust_decimal's comparison operators: decimals compare by
/// numeric value, which for mantissa-and-scale pairs is the integer
/// cross-product comparison.
#[verifier::external_body]
fn dec_cmp_raw(m1: i128, s1: u32, m2: i128, s2: u32) -> (r: i8)
    requires
        s1 <= SCALE_LIMIT,
        s2 <= SCALE_LIMIT,
        -MANTISSA_LIMIT < m1 < MANTISSA_LIMIT,
        -MANTISSA_LIMIT < m2 < MANTISSA_LIMIT,
    ensures
        (r == -1) <==> dec_lt(m1, s1, m2, s2),
        (r == 0) <==> dec_eq(m1, s1, m2, s2),
        (r == 1) <==> dec_lt(m2, s2, m1, s1),
{
    let a = rust_decimal::Decimal::from_i128_with_scale(m1, s1);
    let b = rust_decimal::Decimal::from_i128_with_scale(m2, s2);
    if a < b {
        -1
    } else if a == b {
        0
    } else {
        1
    }
}

/// The checked sum of two decimals, as mantissa and scale, or `None` when
/// the sum is not representable.
pub uninterp spec fn dec_add_of(m1: i128, s1: u32, m2: i128, s2: u32) -> Option<(i128, u32)>;

/// Relies on rust_decimal's `checked_add`. With equal scales and a
/// mantissa sum within range the sum is exact and keeps the scale.
/// Addition of decimals is commutative as a value, so the two operand
/// orders succeed together and their results are equal decimals; their
/// representations can differ (adding a zero keeps the other operand's
/// scale), so nothing stronger is claimed.
#[verifier::external_body]
fn dec_add_raw(m1: i128, s1: u32, m2: i128, s2: u32) -> (r: Option<(i128, u32)>)
    requires
        s1 <= SCALE_LIMIT,
        s2 <= SCALE_LIMIT,
        -MANTISSA_LIMIT < m1 < MANTISSA_LIMIT,
        -MANTISSA_LIMIT < m2 < MANTISSA_LIMIT,
    ensures
        r == dec_add_of(m1, s1, m2, s2),
        (match (r, dec_add_of(m2, s2, m1, s1)) {
            (Some(x), Some(y)) => dec_eq(x.0, x.1, y.0, y.1),
            (None, None) => true,
            _ => false,
        }),
        r matches Some(v) ==> (v.1 <= SCALE_LIMIT && -MANTISSA_LIMIT < v.0 < MANTISSA_LIMIT),
        (s1 == s2 && -MANTISSA_LIMIT < m1 + m2 < MANTISSA_LIMIT) ==> r == Some(
            (((m1 + m2) as i128), s1),
        ),
{
    let a = rust_decimal::Decimal::from_i128_with_scale(m1, s1);
    let b = rust_decimal::Decimal::from_i128_with_scale(m2, s2);
    a.checked_add(b).map(|c| (c.mantissa(), c.scale()))
}

/// The checked difference of two decimals, or `None` when it is not
/// representable.
pub uninterp spec fn dec_sub_of(m1: i128, s1: u32, m2: i128, s2: u32) -> Option<(i128, u32)>;

/// Relies on rust_decimal's `checked_sub`. With equal scales and a
/// mantissa difference within range the difference is exact and keeps the
/// scale.
#[verifier::external_body]
fn dec_sub_raw(m1: i128, s1: u32, m2: i128, s2: u32) -> (r: Option<(i128, u32)>)
    requires
        s1 <= SCALE_LIMIT,
        s2 <= SCALE_LIMIT,
        -MANTISSA_LIMIT < m1 < MANTISSA_LIMIT,
        -MANTISSA_LIMIT < m2 < MANTISSA_LIMIT,
    ensures
        r == dec_sub_of(m1, s1, m2, s2),
        r matches Some(v) ==> (v.1 <= SCALE_LIMIT && -MANTISSA_LIMIT < v.0 < MANTISSA_LIMIT),
        (s1 == s2 && -MANTISSA_LIMIT < m1 - m2 < MANTISSA_LIMIT) ==> r == Some(
            (((m1 - m2) as i128), s1),
        ),
{
    let a = rust_decimal::Decimal::from_i128_with_scale(m1, s1);
    let b = rust_decimal::Decimal::from_i128_with_scale(m2, s2);
    a.checked_sub(b).map(|c| (c.mantissa(), c.scale()))
}

/// The checked product of two decimals, or `None` when it is not
/// representable.
pub uninterp spec fn dec_mul_of(m1: i128, s1: u32, m2: i128, s2: u32) -> Option<(i128, u32)>;

/// Relies on rust_decimal's `checked_mul`.
#[verifier::external_body]
fn dec_mul_raw(m1: i128, s1: u32, m2: i128, s2: u32) -> (r: Option<(i128, u32)>)
    requires
        s1 <= SCALE_LIMIT,
        s2 <= SCALE_LIMIT,
        -MANTISSA_LIMIT < m1 < MANTISSA_LIMIT,
        -MANTISSA_LIMIT < m2 < MANTISSA_LIMIT,
    ensures
        r == dec_mul_of(m1, s1, m2, s2),
        r matches Some(v) ==> (v.1 <= SCALE_LIMIT && -MANTISSA_LIMIT < v.0 < MANTISSA_LIMIT),
{
    let a = rust_decimal::Decimal::from_i128_with_scale(m1, s1);
    let b = rust_decimal::Decimal::from_i128_with_scale(m2, s2);
    a.checked_mul(b).map(|c| (c.mantissa(), c.scale()))
}

/// The checked quotient of two decimals, or `None` when the divisor is
/// zero or the quotient is not representable.
pub uninterp spec fn dec_div_of(m1: i128, s1: u32, m2: i128, s2: u32) -> Option<(i128, u32)>;

/// Relies on rust_decimal's `checked_div`: `None` on a zero divisor.
#[verifier::external_body]
fn dec_div_raw(m1: i128, s1: u32, m2: i128, s2: u32) -> (r: Option<(i128, u32)>)
    requires
        s1 <= SCALE_LIMIT,
        s2 <= SCALE_LIMIT,
        -MANTISSA_LIMIT < m1 < MANTISSA_LIMIT,
        -MANTISSA_LIMIT < m2 < MANTISSA_LIMIT,
    ensures
        r == dec_div_of(m1, s1, m2, s2),
        r matches Some(v) ==> (v.1 <= SCALE_LIMIT && -MANTISSA_LIMIT < v.0 < MANTISSA_LIMIT),
        m2 == 0 ==> r is None,
{
    let a = rust_decimal::Decimal::from_i128_with_scale(m1, s1);
    let b = rust_decimal::Decimal::from_i128_with_scale(m2, s2);
    a.checked_div(b).map(|c| (c.mantissa(), c.scale()))
}

/// An amount of money in the currency `C`. The value is
/// `mantissa / 10^scale`.
#[derive(Debug)]
pub struct Money<C> {
    mantissa: i128,
    scale: u32,
    currency: C,
}

impl<C: Clone> Clone for Money<C> {
    fn clone(&self) -> (r: Self)
        ensures
            r.m_spec() == self.m_spec(),
            r.s_spec() == self.s_spec(),
    {
        proof {
            use_type_invariant(self);
        }
        Money { mantissa: self.mantissa, scale: self.scale, currency: self.currency.clone() }
    }
}

impl<C> Money<C> {
    /// The amount's mantissa.
    pub closed spec fn m_spec(&self) -> i128 {
        self.mantissa
    }

    /// The amount's scale.
    pub closed spec fn s_spec(&self) -> u32 {
        self.scale
    }

    #[verifier::type_invariant]
    closed spec fn inv(&self) -> bool {
        self.scale <= SCALE_LIMIT && -MANTISSA_LIMIT < self.mantissa < MANTISSA_LIMIT
    }

    /// The amount's mantissa, at run time.
    pub fn mantissa(&self) -> (r: i128)
        ensures
            r == self.m_spec(),
    {
        self.mantissa
    }

    /// The amount's scale, at run time.
    pub fn scale(&self) -> (r: u32)
        ensures
            r == self.s_spec(),
    {
        self.scale
    }
}

impl<C: Default> Money<C> {
    /// An amount from a mantissa and a scale, in the default unit of the
    /// currency.
    pub fn new(mantissa: i128, scale: u32) -> (r: Money<C>)
        requires
            scale <= SCALE_LIMIT,
            -MANTISSA_LIMIT < mantissa < MANTISSA_LIMIT,
        ensures
            r.m_spec() == mantissa,
            r.s_spec() == scale,
    {
        Money { mantissa, scale, currency: C::default() }
    }

    /// The checked sum of two amounts: `None` when it is not
    /// representable. With equal scales and a mantissa sum within range
    /// the sum is exact and keeps the scale, and either operand order
    /// gives the same sum as a value.
    pub fn checked_add(self, rhs: Self) -> (r: Option<Money<C>>)
        ensures
            (match (r, dec_add_of(self.m_spec(), self.s_spec(), rhs.m_spec(), rhs.s_spec())) {
                (Some(m), Some(v)) => m.m_spec() == v.0 && m.s_spec() == v.1,
                (None, None) => true,
                _ => false,
            }),
            (match (r, dec_add_of(rhs.m_spec(), rhs.s_spec(), self.m_spec(), self.s_spec())) {
                (Some(m), Some(v)) => dec_eq(m.m_spec(), m.s_spec(), v.0, v.1),
                (None, None) => true,
                _ => false,
            }),
            (self.s_spec() == rhs.s_spec() && -MANTISSA_LIMIT < self.m_spec() + rhs.m_spec()
                < MANTISSA_LIMIT) ==> (match r {
                Some(m) => m.m_spec() == self.m_spec() + rhs.m_spec() && m.s_spec()
                    == self.s_spec(),
                None => false,
            }),
    {
        proof {
            use_type_invariant(&self);
            use_type_invariant(&rhs);
        }
        match dec_add_raw(self.mantissa, self.scale, rhs.mantissa, rhs.scale) {
            Some((m, s)) => Some(Money { mantissa: m, scale: s, currency: C::default() }),
            None => None,
        }
    }

    /// Subtraction of amounts: it succeeds exactly when the minuend
    /// strictly exceeds the subtrahend, and refuses a negative or zero
    /// difference. `None` when the difference is not representable.
    pub fn checked_sub(self, rhs: Self) -> (r: Option<Result<Money<C>, Error>>)
        ensures
            !dec_lt(rhs.m_spec(), rhs.s_spec(), self.m_spec(), self.s_spec()) ==> r == Some(
                Result::<Money<C>, Error>::Err(Error::NegativeAmount),
            ),
            (dec_lt(rhs.m_spec(), rhs.s_spec(), self.m_spec(), self.s_spec()) && dec_sub_of(
                self.m_spec(),
                self.s_spec(),
                rhs.m_spec(),
                rhs.s_spec(),
            ) is Some) ==> (match r {
                Some(Result::Ok(m)) => Some((m.m_spec(), m.s_spec())) == dec_sub_of(
                    self.m_spec(),
                    self.s_spec(),
                    rhs.m_spec(),
                    rhs.s_spec(),
                ),
                _ => false,
            }),
            (dec_lt(rhs.m_spec(), rhs.s_spec(), self.m_spec(), self.s_spec()) && dec_sub_of(
                self.m_spec(),
                self.s_spec(),
                rhs.m_spec(),
                rhs.s_spec(),
            ) is None) ==> r is None,
            (dec_lt(rhs.m_spec(), rhs.s_spec(), self.m_spec(), self.s_spec()) && self.s_spec()
                == rhs.s_spec() && -MANTISSA_LIMIT < self.m_spec() - rhs.m_spec()
                < MANTISSA_LIMIT) ==> (match r {
                Some(Result::Ok(m)) => m.m_spec() == self.m_spec() - rhs.m_spec() && m.s_spec()
                    == self.s_spec(),
                _ => false,
            }),
    {
        proof {
            use_type_invariant(&self);
            use_type_invariant(&rhs);
        }
        let c = dec_cmp_raw(self.mantissa, self.scale, rhs.mantissa, rhs.scale);
        if c == 1 {
            match dec_sub_raw(self.mantissa, self.scale, rhs.mantissa, rhs.scale) {
                Some((m, s)) => Some(Ok(Money { mantissa: m, scale: s, currency: C::default() })),
                None => None,
            }
        } else {
            Some(Err(Error::NegativeAmount))
        }
    }

    /// The checked product of two amounts.
    pub fn checked_mul(self, rhs: Self) -> (r: Option<Money<C>>)
        ensures
            (match (r, dec_mul_of(self.m_spec(), self.s_spec(), rhs.m_spec(), rhs.s_spec())) {
                (Some(m), Some(v)) => m.m_spec() == v.0 && m.s_spec() == v.1,
                (None, None) => true,
                _ => false,
            }),
    {
        proof {
            use_type_invariant(&self);
            use_type_invariant(&rhs);
        }
        match dec_mul_raw(self.mantissa, self.scale, rhs.mantissa, rhs.scale) {
            Some((m, s)) => Some(Money { mantissa: m, scale: s, currency: C::default() }),
            None => None,
        }
    }

    /// The checked quotient of two amounts: `None` on a zero divisor.
    pub fn checked_div(self, rhs: Self) -> (r: Option<Money<C>>)
        ensures
            (match (r, dec_div_of(self.m_spec(), self.s_spec(), rhs.m_spec(), rhs.s_spec())) {
                (Some(m), Some(v)) => m.m_spec() == v.0 && m.s_spec() == v.1,
                (None, None) => true,
                _ => false,
            }),
            rhs.m_spec() == 0 ==> r is None,
    {
        proof {
            use_type_invariant(&self);
            use_type_invariant(&rhs);
        }
        match dec_div_raw(self.mantissa, self.scale, rhs.mantissa, rhs.scale) {
            Some((m, s)) => Some(Money { mantissa: m, scale: s, currency: C::default() }),
            None => None,
        }
    }
}

impl<C> PartialEq for Money<C> {
    fn eq(&self, other: &Self) -> (r: bool) {
        proof {
            use_type_invariant(self);
            use_type_invariant(other);
        }
        dec_cmp_raw(self.mantissa, self.scale, other.mantissa, other.scale) == 0
    }
}

impl<C> vstd::std_specs::cmp::PartialEqSpecImpl for Money<C> {
    open spec fn obeys_eq_spec() -> bool {
        true
    }

    open spec fn eq_spec(&self, other: &Self) -> bool {
        dec_eq(self.m_spec(), self.s_spec(), other.m_spec(), other.s_spec())
    }
}

impl<C> Eq for Money<C> {

}

impl<C> PartialOrd for Money<C> {
    fn partial_cmp(&self, other: &Self) -> (r: Option<core::cmp::Ordering>) {
        proof {
            use_type_invariant(self);
            use_type_invariant(other);
        }
        let c = dec_cmp_raw(self.mantissa, self.scale, other.mantissa, other.scale);
        if c == -1 {
            Some(core::cmp::Ordering::Less)
        } else if c == 0 {
            Some(core::cmp::Ordering::Equal)
        } else {
            Some(core::cmp::Ordering::Greater)
        }
    }
}

impl<C> vstd::std_specs::cmp::PartialOrdSpecImpl for Money<C> {
    open spec fn obeys_partial_cmp_spec() -> bool {
        true
    }

    open spec fn partial_cmp_spec(&self, other: &Self) -> Option<core::cmp::Ordering> {
        if dec_lt(self.m_spec(), self.s_spec(), other.m_spec(), other.s_spec()) {
            Some(core::cmp::Ordering::Less)
        } else if dec_eq(self.m_spec(), self.s_spec(), other.m_spec(), other.s_spec()) {
            Some(core::cmp::Ordering::Equal)
        } else {
            Some(core::cmp::Ordering::Greater)
        }
    }
}

impl<C> View for Money<C> {
    type V = (i128, u32);

    closed spec fn view(&self) -> (i128, u32) {
        (self.mantissa, self.scale)
    }
}

impl<C> crate::numeric::NumberExt for Money<C> {
    open spec fn zero_view(v: (i128, u32)) -> bool {
        v.0 == 0
    }

    open spec fn positive_view(v: (i128, u32)) -> bool {
        v.0 > 0
    }

    open spec fn negative_view(v: (i128, u32)) -> bool {
        v.0 < 0
    }

    fn is_zero(&self) -> (r: bool) {
        self.mantissa == 0
    }

    fn is_positive(&self) -> (r: bool) {
        self.mantissa > 0
    }

    fn is_negative(&self) -> (r: bool) {
        self.mantissa < 0
    }
}

/// A currency tag: its ticker and its issuer's name.
pub trait Currency {
    fn ticker(&self) -> String;

    fn name(&self) -> String;
}

/// A holding of some amount of an exchangeable resource (a currency, a
/// stock, a crypto token). No impl ships with the crate: users bring
/// their own resources.
pub trait Asset: Sized {
    type Amount;

    type Exchange;

    fn can_exchange(&self, other: &Self) -> bool;

    fn with_rate(&self, other: Self::Exchange, rate: Self::Amount) -> Self;

    fn amount(&self) -> Self::Amount;

    fn exchange(&self) -> Self::Exchange;

    fn with_amount(&self, other: Self::Amount) -> Self;

    fn with_exchange(&self, other: Self::Exchange) -> Self;
}

/// A conversion service between units of an asset. The decision surface
/// is synchronous; a driver that reaches the service over a network wraps
/// this with its own scheduling.
pub trait Exchange {
    type Medium: Asset;

    type Error;

    fn convert(
        &self,
        from: <Self::Medium as Asset>::Amount,
        to: <Self::Medium as Asset>::Exchange,
    ) -> Result<Self::Medium, Self::Error>;
}

} // verus!
