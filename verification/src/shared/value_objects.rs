//! Value objects shared by every aggregate: user identifiers, decimal
//! amounts and money.

use vstd::prelude::*;
use vstd::std_specs::cmp::PartialEqSpecImpl;
use vstd::std_specs::convert::FromSpecImpl;

use super::errors::DomainError;
use super::identifier::{is_v4_uuid, random_uuid, uuid_text, uuid_to_text};

verus! {

// ---------------------------------------------------------------------------
// User identifiers
// ---------------------------------------------------------------------------

/// Identifier of a user (organizer or customer): the 128-bit value of a UUID.
#[derive(Debug, Clone, Copy, PartialEq, Eq, Hash, Structural)]
pub struct UserId(pub u128);

impl UserId {
    /// A fresh random identifier: a version-4 UUID.
    pub fn new() -> (r: Self)
        ensures
            is_v4_uuid(r.0),
    {
        UserId(random_uuid())
    }

    pub fn into_inner(self) -> (r: u128)
        ensures
            r == self.0,
    {
        self.0
    }

    /// The hyphenated lower-case text of the identifier.
    pub fn to_text(&self) -> (r: String)
        ensures
            r@ == uuid_text(self.0),
    {
        uuid_to_text(self.0)
    }
}

impl From<u128> for UserId {
    fn from(value: u128) -> (r: Self) {
        UserId(value)
    }
}

impl FromSpecImpl<u128> for UserId {
    open spec fn obeys_from_spec() -> bool {
        true
    }

    open spec fn from_spec(v: u128) -> UserId {
        UserId(v)
    }
}

// ---------------------------------------------------------------------------
// Decimal amounts
// ---------------------------------------------------------------------------

/// Largest magnitude of a decimal mantissa (96 bits).
pub const MAX_MANTISSA: i128 = 0xFFFF_FFFF_FFFF_FFFF_FFFF_FFFFi128;

/// Largest number of digits after the decimal point.
pub const MAX_SCALE: u32 = 28;

pub open spec fn pow10(n: nat) -> int
    decreases n,
{
    if n == 0 {
        1
    } else {
        10 * pow10((n - 1) as nat)
    }
}

pub proof fn lemma_pow10_positive(n: nat)
    ensures
        pow10(n) >= 1,
    decreases n,
{
    if n > 0 {
        lemma_pow10_positive((n - 1) as nat);
    }
}

pub proof fn lemma_pow10_add(a: nat, b: nat)
    ensures
        pow10(a + b) == pow10(a) * pow10(b),
    decreases a,
{
    if a > 0 {
        lemma_pow10_add((a - 1) as nat, b);
        assert(pow10(a + b) == 10 * pow10((a - 1 + b) as nat));
        assert(10 * (pow10((a - 1) as nat) * pow10(b)) == (10 * pow10((a - 1) as nat)) * pow10(b))
            by (nonlinear_arith);
    }
}

/// A decimal number `mantissa × 10^-scale` with the range of
/// `rust_decimal::Decimal`: a 96-bit mantissa and at most 28 fractional digits.
#[derive(Debug, Clone, Copy)]
pub struct Amount {
    mantissa: i128,
    scale: u32,
}

/// The mantissa of `m` rescaled to `s` fractional digits.
pub open spec fn aligned(m: int, scale: int, s: int) -> int {
    m * pow10((s - scale) as nat)
}

pub open spec fn fits_mantissa(m: int) -> bool {
    -MAX_MANTISSA <= m <= MAX_MANTISSA
}

impl Amount {
    #[verifier::type_invariant]
    spec fn well_formed(self) -> bool {
        &&& fits_mantissa(self.mantissa as int)
        &&& self.scale <= MAX_SCALE
    }

    pub closed spec fn spec_mantissa(self) -> int {
        self.mantissa as int
    }

    pub closed spec fn spec_scale(self) -> int {
        self.scale as int
    }

    /// The numeric value in units of `10^-28`: every decimal is an integer
    /// number of such units.
    pub open spec fn units(self) -> int {
        aligned(self.spec_mantissa(), self.spec_scale(), MAX_SCALE as int)
    }

    /// The decimal `mantissa × 10^-scale`; both must lie within the decimal
    /// range.
    pub fn new(mantissa: i128, scale: u32) -> (r: Amount)
        requires
            fits_mantissa(mantissa as int),
            scale <= MAX_SCALE,
        ensures
            r.spec_mantissa() == mantissa,
            r.spec_scale() == scale,
    {
        Amount { mantissa, scale }
    }

    /// Zero, at scale 0.
    pub fn zero() -> (r: Amount)
        ensures
            r.spec_mantissa() == 0,
            r.spec_scale() == 0,
            r.units() == 0,
    {
        Amount { mantissa: 0, scale: 0 }
    }

    pub fn mantissa(&self) -> (r: i128)
        ensures
            r == self.spec_mantissa(),
            fits_mantissa(r as int),
    {
        proof {
            use_type_invariant(self);
        }
        self.mantissa
    }

    pub fn scale(&self) -> (r: u32)
        ensures
            r == self.spec_scale(),
            r <= MAX_SCALE,
    {
        proof {
            use_type_invariant(self);
        }
        self.scale
    }

    /// Whether the amount is below zero.
    pub fn is_negative(&self) -> (r: bool)
        ensures
            r == (self.units() < 0),
    {
        proof {
            use_type_invariant(self);
            lemma_units_sign(*self);
        }
        self.mantissa < 0
    }
}

pub proof fn lemma_units_sign(a: Amount)
    requires
        0 <= a.spec_scale() <= MAX_SCALE,
    ensures
        (a.units() < 0) == (a.spec_mantissa() < 0),
        (a.units() == 0) == (a.spec_mantissa() == 0),
{
    let p = pow10((MAX_SCALE as int - a.spec_scale()) as nat);
    lemma_pow10_positive((MAX_SCALE as int - a.spec_scale()) as nat);
    let m = a.spec_mantissa();
    assert((m < 0) == (m * p < 0)) by (nonlinear_arith)
        requires
            p >= 1,
    ;
    assert((m == 0) == (m * p == 0)) by (nonlinear_arith)
        requires
            p >= 1,
    ;
}

/// `Decimal == Decimal`: rust_decimal compares the numeric values, whatever
/// the scales (`1.0 == 1.00`).
#[verifier::external_body]
fn decimal_equal(a: &Amount, b: &Amount) -> (r: bool)
    ensures
        r == (a.units() == b.units()),
{
    rust_decimal::Decimal::from_i128_with_scale(a.mantissa, a.scale)
        == rust_decimal::Decimal::from_i128_with_scale(b.mantissa, b.scale)
}

impl PartialEq for Amount {
    fn eq(&self, other: &Self) -> (r: bool) {
        decimal_equal(self, other)
    }
}

impl PartialEqSpecImpl for Amount {
    open spec fn obeys_eq_spec() -> bool {
        true
    }

    open spec fn eq_spec(&self, other: &Amount) -> bool {
        self.units() == other.units()
    }
}


/// Larger of two scales: the scale at which two amounts are added.
pub open spec fn common_scale(a: Amount, b: Amount) -> int {
    if a.spec_scale() >= b.spec_scale() {
        a.spec_scale()
    } else {
        b.spec_scale()
    }
}

/// Both operands and their sum fit a decimal once aligned to the common
/// scale, so that the addition is exact and does not overflow.
pub open spec fn sum_fits(a: Amount, b: Amount) -> bool {
    let s = common_scale(a, b);
    let x = aligned(a.spec_mantissa(), a.spec_scale(), s);
    let y = aligned(b.spec_mantissa(), b.spec_scale(), s);
    fits_mantissa(x) && fits_mantissa(y) && fits_mantissa(x + y)
}

/// Both operands and their difference fit a decimal once aligned to the
/// common scale, so that the subtraction is exact and does not overflow.
pub open spec fn difference_fits(a: Amount, b: Amount) -> bool {
    let s = common_scale(a, b);
    let x = aligned(a.spec_mantissa(), a.spec_scale(), s);
    let y = aligned(b.spec_mantissa(), b.spec_scale(), s);
    fits_mantissa(x) && fits_mantissa(y) && fits_mantissa(x - y)
}

/// The product of `a` by the integer `n` fits a decimal at the scale of `a`,
/// so that the multiplication is exact and does not overflow.
pub open spec fn product_fits(a: Amount, n: int) -> bool {
    fits_mantissa(a.spec_mantissa() * n)
}

/// `r` is the exact sum `a + b` as rust_decimal writes it: a zero operand
/// gives back the other one, scale included; otherwise the mantissas aligned
/// to the larger scale are added at that scale.
pub open spec fn is_decimal_sum(a: Amount, b: Amount, r: Amount) -> bool {
    if a.spec_mantissa() == 0 {
        r.spec_mantissa() == b.spec_mantissa() && r.spec_scale() == b.spec_scale()
    } else if b.spec_mantissa() == 0 {
        r.spec_mantissa() == a.spec_mantissa() && r.spec_scale() == a.spec_scale()
    } else {
        let s = common_scale(a, b);
        &&& r.spec_scale() == s
        &&& r.spec_mantissa() == aligned(a.spec_mantissa(), a.spec_scale(), s) + aligned(
            b.spec_mantissa(),
            b.spec_scale(),
            s,
        )
    }
}

/// `r` is the exact difference `a - b` as rust_decimal writes it: from zero
/// the negated `b` at its own scale, a zero `b` gives back `a`; otherwise the
/// mantissas aligned to the larger scale are subtracted at that scale.
pub open spec fn is_decimal_difference(a: Amount, b: Amount, r: Amount) -> bool {
    if a.spec_mantissa() == 0 {
        r.spec_mantissa() == -b.spec_mantissa() && r.spec_scale() == b.spec_scale()
    } else if b.spec_mantissa() == 0 {
        r.spec_mantissa() == a.spec_mantissa() && r.spec_scale() == a.spec_scale()
    } else {
        let s = common_scale(a, b);
        &&& r.spec_scale() == s
        &&& r.spec_mantissa() == aligned(a.spec_mantissa(), a.spec_scale(), s) - aligned(
            b.spec_mantissa(),
            b.spec_scale(),
            s,
        )
    }
}

/// `r` is the exact product of `a` by the integer `n` as rust_decimal writes
/// it: zero at scale 0 when the product is zero, otherwise the product of the
/// mantissa by `n` at the scale of `a`.
pub open spec fn is_decimal_product(a: Amount, n: int, r: Amount) -> bool {
    if a.spec_mantissa() * n == 0 {
        r.spec_mantissa() == 0 && r.spec_scale() == 0
    } else {
        r.spec_mantissa() == a.spec_mantissa() * n && r.spec_scale() == a.spec_scale()
    }
}

/// What `Decimal::checked_add` returns for the decimals `m1 × 10^-s1` and
/// `m2 × 10^-s2`: the mantissa and scale of the sum, rounded to fewer
/// fractional digits where the exact sum needs more than 96 bits, or `None`
/// when even that overflows.
pub uninterp spec fn decimal_checked_add(m1: int, s1: int, m2: int, s2: int) -> Option<(int, int)>;

/// What `Decimal::checked_sub` returns for `m1 × 10^-s1` and `m2 × 10^-s2`:
/// the mantissa and scale of the difference, rounded like a sum, or `None` on
/// overflow.
pub uninterp spec fn decimal_checked_sub(m1: int, s1: int, m2: int, s2: int) -> Option<(int, int)>;

/// What `Decimal::checked_mul` returns for `m × 10^-s` times the integer `n`:
/// the mantissa and scale of the product, rounded to fewer fractional digits
/// where the exact product needs more than 96 bits, or `None` on overflow.
pub uninterp spec fn decimal_checked_mul(m: int, s: int, n: int) -> Option<(int, int)>;

/// Mantissa and scale of an amount.
pub open spec fn parts(a: Amount) -> (int, int) {
    (a.spec_mantissa(), a.spec_scale())
}

/// Mantissa and scale of an optional amount.
pub open spec fn optional_parts(r: Option<Amount>) -> Option<(int, int)> {
    match r {
        Some(x) => Some(parts(x)),
        None => None,
    }
}

/// rust_decimal's sum of `a` and `b`, `None` when it overflows.
pub open spec fn decimal_sum(a: Amount, b: Amount) -> Option<(int, int)> {
    decimal_checked_add(a.spec_mantissa(), a.spec_scale(), b.spec_mantissa(), b.spec_scale())
}

/// rust_decimal's difference of `a` and `b`, `None` when it overflows.
pub open spec fn decimal_difference(a: Amount, b: Amount) -> Option<(int, int)> {
    decimal_checked_sub(a.spec_mantissa(), a.spec_scale(), b.spec_mantissa(), b.spec_scale())
}

/// rust_decimal's product of `a` by the integer `n`, `None` when it
/// overflows.
pub open spec fn decimal_product(a: Amount, n: int) -> Option<(int, int)> {
    decimal_checked_mul(a.spec_mantissa(), a.spec_scale(), n)
}

/// `Decimal::checked_add`, which gives the value of `+` where `+` does not
/// panic and `None` where it panics. rust_decimal returns the other operand
/// when one is zero; otherwise it aligns both to the larger scale and adds,
/// so when the aligned operands and the sum fit in 96 bits the result is that
/// exact sum at the larger scale. Two non-negative operands give a
/// non-negative sum. Beyond that the result is named, not described.
#[verifier::external_body]
fn decimal_add(a: Amount, b: Amount) -> (r: Option<Amount>)
    ensures
        optional_parts(r) == decimal_checked_add(
            a.spec_mantissa(),
            a.spec_scale(),
            b.spec_mantissa(),
            b.spec_scale(),
        ),
        sum_fits(a, b) ==> r is Some && r.unwrap().units() == a.units() + b.units()
            && is_decimal_sum(a, b, r.unwrap()),
        a.spec_mantissa() >= 0 && b.spec_mantissa() >= 0 && r is Some
            ==> r.unwrap().spec_mantissa() >= 0,
{
    match rust_decimal::Decimal::from_i128_with_scale(a.mantissa, a.scale).checked_add(
        rust_decimal::Decimal::from_i128_with_scale(b.mantissa, b.scale),
    ) {
        Some(d) => Some(Amount { mantissa: d.mantissa(), scale: d.scale() }),
        None => None,
    }
}

/// `Decimal::checked_sub`, which gives the value of `-` where `-` does not
/// panic and `None` where it panics. Exact under the same conditions as the
/// addition; a zero left operand gives the negated right operand at its own
/// scale. Beyond that the result is named, not described.
#[verifier::external_body]
fn decimal_sub(a: Amount, b: Amount) -> (r: Option<Amount>)
    ensures
        optional_parts(r) == decimal_checked_sub(
            a.spec_mantissa(),
            a.spec_scale(),
            b.spec_mantissa(),
            b.spec_scale(),
        ),
        difference_fits(a, b) ==> r is Some && r.unwrap().units() == a.units() - b.units()
            && is_decimal_difference(a, b, r.unwrap()),
{
    match rust_decimal::Decimal::from_i128_with_scale(a.mantissa, a.scale).checked_sub(
        rust_decimal::Decimal::from_i128_with_scale(b.mantissa, b.scale),
    ) {
        Some(d) => Some(Amount { mantissa: d.mantissa(), scale: d.scale() }),
        None => None,
    }
}

/// `Decimal::checked_mul` by `Decimal::from(n)`, which gives the value of `*`
/// where `*` does not panic and `None` where it panics: zero (at scale 0)
/// when either factor is zero, otherwise the product of the mantissas at the
/// scale of `a` when it fits in 96 bits. A non-negative amount times a
/// non-negative integer is non-negative. Beyond that the result is named,
/// not described.
#[verifier::external_body]
fn decimal_mul_int(a: Amount, n: i64) -> (r: Option<Amount>)
    ensures
        optional_parts(r) == decimal_checked_mul(a.spec_mantissa(), a.spec_scale(), n as int),
        product_fits(a, n as int) ==> r is Some && r.unwrap().units() == a.units() * n
            && is_decimal_product(a, n as int, r.unwrap()),
        a.spec_mantissa() >= 0 && n >= 0 && r is Some ==> r.unwrap().spec_mantissa() >= 0,
{
    match rust_decimal::Decimal::from_i128_with_scale(a.mantissa, a.scale).checked_mul(
        rust_decimal::Decimal::from(n),
    ) {
        Some(d) => Some(Amount { mantissa: d.mantissa(), scale: d.scale() }),
        None => None,
    }
}

// ---------------------------------------------------------------------------
// Money
// ---------------------------------------------------------------------------

/// A non-negative decimal amount in a currency.
#[derive(Debug)]
pub struct Money {
    amount: Amount,
    currency: String,
}

impl Money {
    #[verifier::type_invariant]
    spec fn non_negative(self) -> bool {
        self.amount.units() >= 0
    }

    pub closed spec fn value(self) -> Amount {
        self.amount
    }

    pub closed spec fn currency_text(self) -> Seq<char> {
        self.currency@
    }

    /// A money value with the given amount; negative amounts are refused.
    pub fn new(amount: Amount, currency: String) -> (r: Result<Money, DomainError>)
        ensures
            r is Ok <==> amount.units() >= 0,
            r matches Ok(m) ==> m.value() == amount && m.currency_text() == currency@,
            r matches Err(e) ==> e is NegativeMoney,
    {
        if amount.is_negative() {
            return Err(DomainError::NegativeMoney);
        }
        Ok(Money { amount, currency })
    }

    /// Zero in the given currency.
    pub fn zero(currency: String) -> (r: Money)
        ensures
            r.value().units() == 0,
            r.value().spec_mantissa() == 0,
            r.value().spec_scale() == 0,
            r.currency_text() == currency@,
    {
        Money { amount: Amount::zero(), currency }
    }

    pub fn amount(&self) -> (r: Amount)
        ensures
            r == self.value(),
            r.units() >= 0,
    {
        proof {
            use_type_invariant(self);
        }
        self.amount
    }

    pub fn currency(&self) -> (r: &str)
        ensures
            r@ == self.currency_text(),
    {
        self.currency.as_str()
    }

    /// Whether both values are in the same currency.
    pub fn same_currency(&self, other: &Money) -> (r: bool)
        ensures
            r == (self.currency_text() == other.currency_text()),
    {
        self.currency == other.currency
    }

    /// What `add` gives: the sum in rust_decimal's arithmetic, exact where it
    /// fits, in the common currency; a mismatch of currencies is refused.
    pub open spec fn sum_outcome(self, other: Money, r: Result<Money, DomainError>) -> bool {
        &&& r is Ok <==> self.currency_text() == other.currency_text()
        &&& r matches Ok(m) ==> {
            &&& decimal_sum(self.value(), other.value()) == Some(parts(m.value()))
            &&& m.currency_text() == self.currency_text()
            &&& sum_fits(self.value(), other.value()) ==> m.value().units() == self.value().units()
                + other.value().units() && is_decimal_sum(self.value(), other.value(), m.value())
        }
        &&& r matches Err(e) ==> e is CurrencyMismatch
    }

    /// What `subtract` gives: the difference in rust_decimal's arithmetic,
    /// exact where it fits, refused for a mismatch of currencies or when it
    /// is negative.
    pub open spec fn difference_outcome(
        self,
        other: Money,
        r: Result<Money, DomainError>,
    ) -> bool {
        &&& r is Ok <==> (self.currency_text() == other.currency_text() && decimal_difference(
            self.value(),
            other.value(),
        ) is Some && decimal_difference(self.value(), other.value()).unwrap().0 >= 0)
        &&& r matches Ok(m) ==> {
            &&& decimal_difference(self.value(), other.value()) == Some(parts(m.value()))
            &&& m.currency_text() == self.currency_text()
        }
        &&& self.currency_text() == other.currency_text() && difference_fits(
            self.value(),
            other.value(),
        ) ==> {
            &&& r is Ok <==> self.value().units() >= other.value().units()
            &&& r matches Ok(m) ==> m.value().units() == self.value().units()
                - other.value().units() && is_decimal_difference(
                self.value(),
                other.value(),
                m.value(),
            )
        }
        &&& r matches Err(e) ==> if self.currency_text() != other.currency_text() {
            e is CurrencyMismatch
        } else {
            e is NegativeMoney
        }
    }

    /// `m` is the amount times the integer `n` in rust_decimal's arithmetic,
    /// exact where it fits, in the same currency.
    pub open spec fn is_product(self, n: int, m: Money) -> bool {
        &&& decimal_product(self.value(), n) == Some(parts(m.value()))
        &&& m.currency_text() == self.currency_text()
        &&& product_fits(self.value(), n) ==> m.value().units() == self.value().units() * n
            && is_decimal_product(self.value(), n, m.value())
    }

    /// What `multiply` gives: the product for a non-negative multiplier,
    /// `NegativeMoney` for a negative one.
    pub open spec fn product_outcome(self, multiplier: int, r: Result<Money, DomainError>) -> bool {
        &&& r is Ok <==> multiplier >= 0
        &&& r matches Ok(m) ==> self.is_product(multiplier, m)
        &&& r matches Err(e) ==> e is NegativeMoney
    }

    /// The sum of two amounts in the same currency.
    pub fn add(&self, other: &Money) -> (r: Result<Money, DomainError>)
        requires
            self.currency_text() == other.currency_text() ==> decimal_sum(
                self.value(),
                other.value(),
            ) is Some,
        ensures
            self.sum_outcome(*other, r),
    {
        match self.checked_add(other) {
            Some(r) => r,
            None => {
                proof {
                    assert(false);
                }
                Err(DomainError::CurrencyMismatch)
            },
        }
    }

    /// The sum, or `None` where rust_decimal overflows (and `add` would
    /// panic).
    pub fn checked_add(&self, other: &Money) -> (r: Option<Result<Money, DomainError>>)
        ensures
            r is None <==> (self.currency_text() == other.currency_text() && decimal_sum(
                self.value(),
                other.value(),
            ) is None),
            r matches Some(res) ==> self.sum_outcome(*other, res),
    {
        proof {
            use_type_invariant(self);
            use_type_invariant(other);
        }
        if !(self.currency == other.currency) {
            return Some(Err(DomainError::CurrencyMismatch));
        }
        match decimal_add(self.amount, other.amount) {
            Some(sum) => {
                proof {
                    use_type_invariant(&sum);
                    use_type_invariant(&self.amount);
                    use_type_invariant(&other.amount);
                    lemma_units_sign(self.amount);
                    lemma_units_sign(other.amount);
                    lemma_units_sign(sum);
                }
                Some(Ok(Money { amount: sum, currency: self.currency.clone() }))
            },
            None => None,
        }
    }

    /// The difference of two amounts in the same currency, refused when it
    /// would be negative.
    pub fn subtract(&self, other: &Money) -> (r: Result<Money, DomainError>)
        requires
            self.currency_text() == other.currency_text() ==> decimal_difference(
                self.value(),
                other.value(),
            ) is Some,
        ensures
            self.difference_outcome(*other, r),
    {
        match self.checked_subtract(other) {
            Some(r) => r,
            None => {
                proof {
                    assert(false);
                }
                Err(DomainError::CurrencyMismatch)
            },
        }
    }

    /// The difference, or `None` where rust_decimal overflows (and
    /// `subtract` would panic).
    pub fn checked_subtract(&self, other: &Money) -> (r: Option<Result<Money, DomainError>>)
        ensures
            r is None <==> (self.currency_text() == other.currency_text() && decimal_difference(
                self.value(),
                other.value(),
            ) is None),
            r matches Some(res) ==> self.difference_outcome(*other, res),
    {
        if !(self.currency == other.currency) {
            return Some(Err(DomainError::CurrencyMismatch));
        }
        match decimal_sub(self.amount, other.amount) {
            Some(difference) => {
                if difference.is_negative() {
                    proof {
                        use_type_invariant(&difference);
                        lemma_units_sign(difference);
                    }
                    return Some(Err(DomainError::NegativeMoney));
                }
                proof {
                    use_type_invariant(&difference);
                    lemma_units_sign(difference);
                }
                Some(Ok(Money { amount: difference, currency: self.currency.clone() }))
            },
            None => None,
        }
    }

    /// The amount multiplied by a non-negative integer.
    pub fn multiply(&self, multiplier: i32) -> (r: Result<Money, DomainError>)
        requires
            multiplier >= 0 ==> decimal_product(self.value(), multiplier as int) is Some,
        ensures
            self.product_outcome(multiplier as int, r),
    {
        if multiplier < 0 {
            return Err(DomainError::NegativeMoney);
        }
        Ok(self.times(multiplier as u32))
    }

    /// The product, or `None` where rust_decimal overflows (and `multiply`
    /// would panic).
    pub fn checked_multiply(&self, multiplier: i32) -> (r: Option<Result<Money, DomainError>>)
        ensures
            r is None <==> (multiplier >= 0 && decimal_product(self.value(), multiplier as int)
                is None),
            r matches Some(res) ==> self.product_outcome(multiplier as int, res),
    {
        if multiplier >= 0 && !self.can_multiply(multiplier as i64) {
            return None;
        }
        Some(self.multiply(multiplier))
    }

    /// The amount multiplied by a count, such as a number of tickets.
    pub fn times(&self, count: u32) -> (r: Money)
        requires
            decimal_product(self.value(), count as int) is Some,
        ensures
            self.is_product(count as int, r),
    {
        proof {
            use_type_invariant(self);
            use_type_invariant(&self.amount);
            lemma_units_sign(self.amount);
        }
        match decimal_mul_int(self.amount, count as i64) {
            Some(product) => {
                proof {
                    use_type_invariant(&product);
                    lemma_units_sign(product);
                }
                Money { amount: product, currency: self.currency.clone() }
            },
            None => {
                proof {
                    assert(false);
                }
                Money { amount: Amount::zero(), currency: self.currency.clone() }
            },
        }
    }

    /// Whether the amount times `multiplier` stays within the decimal range,
    /// so that rust_decimal does not overflow.
    pub fn can_multiply(&self, multiplier: i64) -> (r: bool)
        ensures
            r == decimal_product(self.value(), multiplier as int) is Some,
    {
        match decimal_mul_int(self.amount, multiplier) {
            Some(_) => true,
            None => false,
        }
    }
}

impl Clone for Money {
    fn clone(&self) -> (r: Self)
        ensures
            r == *self,
    {
        proof {
            use_type_invariant(self);
        }
        Money { amount: self.amount, currency: self.currency.clone() }
    }
}

impl PartialEq for Money {
    fn eq(&self, other: &Self) -> (r: bool) {
        decimal_equal(&self.amount, &other.amount) && self.currency == other.currency
    }
}

impl PartialEqSpecImpl for Money {
    open spec fn obeys_eq_spec() -> bool {
        true
    }

    open spec fn eq_spec(&self, other: &Money) -> bool {
        self.value().units() == other.value().units() && self.currency_text()
            == other.currency_text()
    }
}

/// A decimal within the range of `rust_decimal::Decimal`, as every `Amount`
/// value is.
pub open spec fn is_valid_amount(a: Amount) -> bool {
    fits_mantissa(a.spec_mantissa()) && a.spec_scale() <= MAX_SCALE
}

proof fn lemma_aligned_to_units(m: int, from: int, to: int)
    requires
        0 <= from <= to <= MAX_SCALE,
    ensures
        aligned(m, from, MAX_SCALE as int) == aligned(m, from, to) * pow10((MAX_SCALE - to) as nat),
{
    let p = pow10((to - from) as nat);
    let q = pow10((MAX_SCALE - to) as nat);
    lemma_pow10_add((to - from) as nat, (MAX_SCALE - to) as nat);
    assert(((to - from) as nat + (MAX_SCALE - to) as nat) as nat == (MAX_SCALE - from) as nat);
    assert(m * (p * q) == (m * p) * q) by (nonlinear_arith);
}

/// Subtracting what was added gives the amount back: for a sum `s` of two
/// non-negative amounts in one currency that `add` computes exactly, the
/// subtraction of the second amount is exact, succeeds, and leaves the
/// value of the first.
pub proof fn lemma_subtract_undoes_add(a: Money, b: Money, s: Money)
    requires
        is_valid_amount(a.value()),
        is_valid_amount(b.value()),
        a.value().units() >= 0,
        b.value().units() >= 0,
        a.currency_text() == b.currency_text(),
        sum_fits(a.value(), b.value()),
        is_decimal_sum(a.value(), b.value(), s.value()),
        s.currency_text() == a.currency_text(),
    ensures
        s.currency_text() == b.currency_text(),
        difference_fits(s.value(), b.value()),
        s.value().units() >= b.value().units(),
        s.value().units() - b.value().units() == a.value().units(),
{
    let x = a.value();
    let y = b.value();
    let r = s.value();
    let c = common_scale(x, y);
    assert(pow10(0) == 1);
    if x.spec_mantissa() == 0 {
        assert(aligned(y.spec_mantissa(), y.spec_scale(), y.spec_scale()) == y.spec_mantissa());
        assert(x.units() == 0);
    } else if y.spec_mantissa() == 0 {
        assert(y.units() == 0);
        assert(aligned(y.spec_mantissa(), y.spec_scale(), c) == 0);
        assert(common_scale(r, y) == c);
    } else {
        let p = pow10((MAX_SCALE - c) as nat);
        let ax = aligned(x.spec_mantissa(), x.spec_scale(), c);
        let ay = aligned(y.spec_mantissa(), y.spec_scale(), c);
        assert(common_scale(r, y) == c);
        assert(aligned(r.spec_mantissa(), c, c) == ax + ay);
        lemma_aligned_to_units(x.spec_mantissa(), x.spec_scale(), c);
        lemma_aligned_to_units(y.spec_mantissa(), y.spec_scale(), c);
        lemma_aligned_to_units(r.spec_mantissa(), c, c);
        assert((ax + ay) * p == ax * p + ay * p) by (nonlinear_arith);
    }
}

} // verus!
