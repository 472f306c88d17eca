//! Money, score and ratio quantities shared by every reference-data table.

use vstd::prelude::*;

verus! {

/// Quotient of `a / b` (for a positive `b`) rounded toward zero, the way
/// integer division of machine integers behaves.
pub open spec fn trunc_div(a: int, b: int) -> int
    recommends
        b > 0,
{
    if a >= 0 {
        a / b
    } else {
        -((-a) / b)
    }
}

/// Quotient of `a / b` rounded toward zero for a divisor of either sign.
pub open spec fn trunc_div_signed(a: int, b: int) -> int
    recommends
        b != 0,
{
    if b > 0 {
        trunc_div(a, b)
    } else {
        -trunc_div(a, -b)
    }
}

/// A share `num/den` (at most the whole) of an amount lies between zero and
/// the amount.
pub proof fn lemma_share_bounds(amount: int, num: int, den: int)
    requires
        1 <= num <= den,
    ensures
        amount >= 0 ==> 0 <= trunc_div(amount * num, den) <= amount,
        amount < 0 ==> amount <= trunc_div(amount * num, den) <= 0,
{
    if amount >= 0 {
        assert(0 <= amount * num <= amount * den) by (nonlinear_arith)
            requires
                amount >= 0,
                1 <= num <= den,
        ;
        assert((amount * den) / den == amount) by (nonlinear_arith)
            requires
                den >= 1,
        ;
        assert(0 <= (amount * num) / den <= (amount * den) / den) by (nonlinear_arith)
            requires
                0 <= amount * num <= amount * den,
                den >= 1,
        ;
    } else {
        let m = -amount;
        assert(0 <= m * num <= m * den) by (nonlinear_arith)
            requires
                m > 0,
                1 <= num <= den,
        ;
        assert((m * den) / den == m) by (nonlinear_arith)
            requires
                den >= 1,
        ;
        assert(0 <= (m * num) / den <= (m * den) / den) by (nonlinear_arith)
            requires
                0 <= m * num <= m * den,
                den >= 1,
        ;
        assert(-(amount * num) == m * num) by (nonlinear_arith)
            requires
                m == -amount,
        ;
    }
}

/// The product of a 64-bit signed amount and a 32-bit unsigned factor is far
/// inside the 128-bit range.
pub proof fn lemma_wide_product(a: int, b: int)
    requires
        i64::MIN <= a <= i64::MAX,
        0 <= b <= u32::MAX,
    ensures
        i64::MIN * 0x1_0000_0000 <= a * b <= i64::MAX * 0x1_0000_0000,
{
    assert(i64::MIN * 0x1_0000_0000 <= a * b <= i64::MAX * 0x1_0000_0000) by (nonlinear_arith)
        requires
            i64::MIN <= a <= i64::MAX,
            0 <= b <= u32::MAX,
    ;
}

/// A rate in basis points of an amount, rounded toward zero:
/// `amount × bps / 10_000`.
pub open spec fn bps_share(amount: int, bps: int) -> int {
    trunc_div(amount * bps, 10_000)
}

/// The monthly part of an annual rate on a positive principal, rounded up:
/// the annual amount `principal × bps / 10_000` (rounded down), divided by
/// twelve and rounded up.
pub open spec fn monthly_ceil(principal: int, bps: int) -> int {
    (principal * bps / 10_000 + 11) / 12
}

/// `bps_share` computed in 128 bits, as a 64-bit value.
pub fn share_cents(amount: i64, bps: u32) -> (r: i64)
    ensures
        r == bps_share(amount as int, bps as int) as i64,
{
    proof {
        lemma_wide_product(amount as int, bps as int);
    }
    let v: i128 = (amount as i128) * (bps as i128) / 10_000;
    #[verifier::truncate]
    (v as i64)
}

/// `monthly_ceil` computed in 128 bits, as a 64-bit value.
pub fn monthly_ceil_cents(principal: i64, bps: u32) -> (r: i64)
    requires
        principal > 0,
    ensures
        r == monthly_ceil(principal as int, bps as int) as i64,
{
    proof {
        lemma_wide_product(principal as int, bps as int);
        assert(0 <= (principal as int) * (bps as int)) by (nonlinear_arith)
            requires
                principal > 0,
                bps >= 0,
        ;
    }
    let annual: i128 = (principal as i128) * (bps as i128) / 10_000;
    let monthly: i128 = (annual + 11) / 12;
    #[verifier::truncate]
    (monthly as i64)
}

/// With a rate of at most 65535 bps the monthly amount fits well inside the
/// principal, so nothing is lost to the 64-bit result.
pub proof fn lemma_monthly_fits(principal: int, bps: int)
    requires
        0 < principal <= i64::MAX,
        0 <= bps <= 65535,
    ensures
        0 <= monthly_ceil(principal, bps) <= principal,
{
    assert(0 <= principal * bps <= principal * 65535) by (nonlinear_arith)
        requires
            0 < principal,
            0 <= bps <= 65535,
    ;
    assert(principal * bps / 10_000 <= principal * 7) by (nonlinear_arith)
        requires
            0 <= principal * bps <= principal * 65535,
            0 < principal,
    ;
}

/// The rounded-up monthly amount, times twelve, covers the annual amount,
/// by less than one month's rounding.
pub proof fn lemma_monthly_covers_annual(principal: int, bps: int)
    requires
        principal > 0,
        bps >= 0,
    ensures
        principal * bps / 10_000 <= 12 * monthly_ceil(principal, bps) < principal * bps / 10_000 + 12,
{
    assert(principal * bps >= 0) by (nonlinear_arith)
        requires
            principal > 0,
            bps >= 0,
    ;
}

/// A signed amount of money in cents.
#[derive(Clone, Copy, Debug, PartialEq, Eq, Structural, PartialOrd, Ord)]
pub struct Cents(pub i64);

impl Cents {
    /// Whole dollars expressed in cents.
    pub fn from_dollars(dollars: i64) -> (c: Cents)
        requires
            i64::MIN <= dollars * 100 <= i64::MAX,
        ensures
            c.0 == dollars * 100,
    {
        Cents(dollars * 100)
    }

    /// True for a strictly positive amount.
    pub fn is_positive(&self) -> (b: bool)
        ensures
            b == (self.0 > 0),
    {
        self.0 > 0
    }
}

/// A representative credit score (FICO range 300–850).
#[derive(Clone, Copy, Debug, PartialEq, Eq, Structural)]
pub struct CreditScore(pub u16);

impl CreditScore {
    /// Lowest score on the FICO scale.
    pub const MIN: u16 = 300;

    /// Highest score on the FICO scale.
    pub const MAX: u16 = 850;

    /// A score on the FICO scale, or `None` outside 300–850.
    pub fn new(score: u16) -> (r: Option<CreditScore>)
        ensures
            r is Some <==> (300 <= score <= 850),
            r matches Some(s) ==> s.0 == score,
    {
        if Self::MIN <= score && score <= Self::MAX {
            Some(CreditScore(score))
        } else {
            None
        }
    }
}

/// Loan-to-value ratio in basis points (9650 = 96.50%).
#[derive(Clone, Copy, Debug, PartialEq, Eq, Structural)]
pub struct LtvBasisPoints(pub u32);

impl LtvBasisPoints {
    /// Largest ratio the engine accepts: 200.00%.
    pub const MAX: u32 = 20_000;

    /// A ratio of at most 200.00%, or `None` above it.
    pub fn new(bps: u32) -> (r: Option<LtvBasisPoints>)
        ensures
            r is Some <==> bps <= 20_000,
            r matches Some(l) ==> l.0 == bps,
    {
        if bps <= Self::MAX {
            Some(LtvBasisPoints(bps))
        } else {
            None
        }
    }
}

/// Debt-to-income ratio in basis points (3100 = 31.00%).
#[derive(Clone, Copy, Debug, PartialEq, Eq, Structural)]
pub struct DtiBasisPoints(pub u32);

impl DtiBasisPoints {
    /// Wrap a ratio given in basis points.
    pub fn new(bps: u32) -> (d: DtiBasisPoints)
        ensures
            d.0 == bps,
    {
        DtiBasisPoints(bps)
    }
}

/// A rate at 0.001% precision (one true basis point is ten units).
#[derive(Clone, Copy, Debug, PartialEq, Eq, Structural)]
pub struct BasisPoints(pub u32);

/// Loan program families the engine prices and qualifies.
#[derive(Clone, Copy, Debug, PartialEq, Eq, Structural)]
pub enum ProgramCode {
    Conventional,
    HomeReady,
    HomePossible,
    HomeOne,
    Fha,
    FhaDpa,
    Va,
    VaJumbo,
    Usda,
    Bond,
    Jumbo,
    NonQm,
}

} // verus!
