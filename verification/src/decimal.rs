//! Decimal numbers held exactly.
//!
//! An element record gives its quantities as short decimal texts. Keeping
//! each as an integer mantissa and a power of ten loses nothing of what was
//! written, and leaves the choice of a binary approximation to the user.

use vstd::prelude::*;
use vstd::arithmetic::div_mod::lemma_fundamental_div_mod;
use vstd::arithmetic::div_mod::lemma_mod_bound;
use vstd::arithmetic::div_mod::lemma_multiply_divide_lt;
use vstd::arithmetic::mul::lemma_mul_inequality;
use vstd::arithmetic::mul::lemma_mul_strict_inequality;

verus! {

/// Ten to the power `n`.
pub open spec fn pow10(n: nat) -> nat
    decreases n,
{
    if n == 0 {
        1
    } else {
        10 * pow10((n - 1) as nat)
    }
}

/// A power of ten is at least one.
pub proof fn lemma_pow10_positive(n: nat)
    ensures
        pow10(n) >= 1,
    decreases n,
{
    if n > 0 {
        lemma_pow10_positive((n - 1) as nat);
    }
}

/// Powers of ten grow with the exponent.
pub proof fn lemma_pow10_increases(a: nat, b: nat)
    requires
        a <= b,
    ensures
        pow10(a) <= pow10(b),
    decreases b,
{
    if a < b {
        lemma_pow10_increases(a, (b - 1) as nat);
    }
}

/// The largest power of ten that is computed: `10^18` is the last one
/// below `2^63`.
pub const MAX_POWER: u32 = 18;

/// Ten to the power `n`, for `n` up to [`MAX_POWER`].
pub fn power_of_ten(n: u32) -> (power: i64)
    requires
        n <= MAX_POWER,
    ensures
        power == pow10(n as nat),
        1 <= power <= 1_000_000_000_000_000_000,
{
    let mut power: i64 = 1;
    let mut i: u32 = 0;
    proof {
        lemma_pow10_increases(0, 18);
        assert(pow10(18) == 1_000_000_000_000_000_000) by {
            reveal_with_fuel(pow10, 19);
        }
    }
    while i < n
        invariant
            i <= n <= MAX_POWER,
            power == pow10(i as nat),
            pow10(18) == 1_000_000_000_000_000_000,
        decreases n - i,
    {
        proof {
            lemma_pow10_increases((i + 1) as nat, 18);
        }
        power = power * 10;
        i = i + 1;
    }
    proof {
        lemma_pow10_positive(n as nat);
        lemma_pow10_increases(n as nat, 18);
    }
    power
}

/// The decimal number `mantissa × 10^exponent`.
///
/// Two values are equal when they are written alike: `(10, -1)` and
/// `(1, 0)` denote the same number and are different values.
#[derive(Clone, Copy, Debug, PartialEq, Eq, Structural)]
pub struct Decimal {
    /// The digits, read as a signed integer.
    pub mantissa: i64,
    /// The power of ten that scales the mantissa.
    pub exponent: i32,
}

impl Decimal {
    /// Whether the number has a fractional part short enough for
    /// [`Decimal::floor`] and [`Decimal::fraction_of`]: at most
    /// [`MAX_POWER`] digits after the point, and no positive exponent.
    pub open spec fn is_fixed_point(&self) -> bool {
        -(MAX_POWER as int) <= self.exponent <= 0
    }

    /// The number of digits after the decimal point.
    pub open spec fn scale(&self) -> nat
        recommends
            self.exponent <= 0,
    {
        (-(self.exponent as int)) as nat
    }

    /// The largest integer that is not above the number.
    pub open spec fn whole(&self) -> int
        recommends
            self.exponent <= 0,
    {
        self.mantissa as int / pow10(self.scale()) as int
    }

    /// What is left of the number above [`Decimal::whole`], counted in
    /// units of `10^exponent`. It lies in `0..10^scale`.
    pub open spec fn remainder(&self) -> int
        recommends
            self.exponent <= 0,
    {
        self.mantissa as int % pow10(self.scale()) as int
    }

    /// The number of whole `1/parts` that fit in the fractional part of the
    /// number: `⌊(x − ⌊x⌋) · parts⌋`.
    pub open spec fn parts_of_fraction(&self, parts: int) -> int
        recommends
            self.exponent <= 0,
    {
        (self.remainder() * parts) / pow10(self.scale()) as int
    }

    /// The decimal `mantissa × 10^exponent`.
    pub fn new(mantissa: i64, exponent: i32) -> (decimal: Decimal)
        ensures
            decimal.mantissa == mantissa,
            decimal.exponent == exponent,
    {
        Decimal { mantissa, exponent }
    }

    /// The number rounded down to an integer. A negative number rounds
    /// away from zero: `-1.5` gives `-2`.
    pub fn floor(&self) -> (whole: i64)
        requires
            self.is_fixed_point(),
        ensures
            whole == self.whole(),
            whole * pow10(self.scale()) <= self.mantissa < (whole + 1) * pow10(self.scale()),
    {
        let unit: i64 = power_of_ten((-self.exponent) as u32);
        proof {
            lemma_fundamental_div_mod(self.mantissa as int, unit as int);
            lemma_mod_bound(self.mantissa as int, unit as int);
            assert(unit * (self.mantissa as int / unit as int) == (self.mantissa as int / unit as int) * unit)
                by (nonlinear_arith);
            assert((self.mantissa as int / unit as int + 1) * unit == (self.mantissa as int / unit as int) * unit + unit)
                by (nonlinear_arith);
            lemma_floor_in_range(self.mantissa as int, unit as int);
        }
        match self.mantissa.checked_div_euclid(unit) {
            Some(whole) => whole,
            None => 0,
        }
    }

    /// How many whole `1/parts` fit in the fractional part of the number.
    /// With `parts = 86_400` and a number of days, this is the second of
    /// the day.
    pub fn fraction_of(&self, parts: u32) -> (count: u32)
        requires
            self.is_fixed_point(),
        ensures
            count == self.parts_of_fraction(parts as int),
            parts > 0 ==> count < parts,
            parts == 0 ==> count == 0,
    {
        let unit: i64 = power_of_ten((-self.exponent) as u32);
        proof {
            lemma_mod_bound(self.mantissa as int, unit as int);
        }
        let rest: i64 = match self.mantissa.checked_rem_euclid(unit) {
            Some(rest) => rest,
            None => 0,
        };
        assert(rest == self.remainder());
        assert(0 <= rest < unit);
        proof {
            lemma_mul_inequality(rest as int, unit as int, parts as int);
            assert(rest * parts <= unit * parts);
            assert(unit * parts <= 1_000_000_000_000_000_000 * 0xffff_ffff) by (nonlinear_arith)
                requires
                    0 < unit <= 1_000_000_000_000_000_000,
                    0 <= parts <= 0xffff_ffff,
            ;
            assert(0 <= rest * parts) by (nonlinear_arith)
                requires
                    0 <= rest,
                    0 <= parts,
            ;
            if parts > 0 {
                lemma_mul_strict_inequality(rest as int, unit as int, parts as int);
                assert(unit * parts == parts * unit) by (nonlinear_arith);
                lemma_multiply_divide_lt(rest * parts, unit as int, parts as int);
            } else {
                assert(rest * parts == 0) by (nonlinear_arith)
                    requires
                        parts == 0,
                ;
            }
            assert(0 <= (rest * parts) / (unit as int)) by (nonlinear_arith)
                requires
                    0 <= rest * parts,
                    0 < unit,
            ;
        }
        let scaled: u128 = (rest as u128) * (parts as u128);
        let count: u128 = scaled / (unit as u128);
        count as u32
    }
}

/// The quotient of a 64-bit integer by a positive one is a 64-bit integer.
proof fn lemma_floor_in_range(x: int, d: int)
    requires
        i64::MIN <= x <= i64::MAX,
        d >= 1,
    ensures
        i64::MIN <= x / d <= i64::MAX,
{
    lemma_fundamental_div_mod(x, d);
    lemma_mod_bound(x, d);
    let q = x / d;
    assert(d * q == x - x % d);
    if q > i64::MAX {
        assert(d * q >= q) by (nonlinear_arith)
            requires
                d >= 1,
                q >= 0,
        ;
    }
    if q < i64::MIN {
        assert(d * q + d <= q + 1) by (nonlinear_arith)
            requires
                d >= 1,
                q + 1 <= 0,
        ;
    }
}

} // verus!
