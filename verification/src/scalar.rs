//! Fixed-point scalars.
//!
//! A `Scalar` holds a signed 64-bit count of `1/65536` units, so the
//! represented value is `bits / 65536`. Every operation is total: a result
//! that would fall outside the representable range saturates at the nearest
//! extreme, a division by zero returns the saturated extreme of the
//! numerator's sign (zero for a zero numerator), and a remainder by zero is
//! zero. Products and quotients round toward zero.

use vstd::arithmetic::div_mod::{
    lemma_div_by_multiple, lemma_div_is_ordered, lemma_div_nonincreasing,
    lemma_fundamental_div_mod, lemma_fundamental_div_mod_converse, lemma_mod_bound,
};
use vstd::arithmetic::mul::{
    lemma_mul_cancels_negatives, lemma_mul_inequality, lemma_mul_is_commutative,
    lemma_mul_strictly_positive,
    lemma_mul_is_distributive_add_other_way, lemma_mul_nonnegative, lemma_mul_unary_negation,
    lemma_mul_upper_bound,
};
use vstd::prelude::*;

verus! {

/// Number of fixed-point units in one whole unit.
pub const UNIT: i64 = 65536;

/// A fixed-point scalar: the represented value is `bits / 65536`.
#[derive(Clone, Copy, PartialEq, Eq, Structural, Debug, Hash)]
pub struct Scalar {
    pub bits: i64,
}

/// Magnitude of an unbounded integer.
pub open spec fn abs_i(a: int) -> int {
    if a < 0 {
        -a
    } else {
        a
    }
}

/// Clamps an unbounded integer into the range of `Scalar` bits.
pub open spec fn sat(v: int) -> int {
    if v > i64::MAX as int {
        i64::MAX as int
    } else if v < i64::MIN as int {
        i64::MIN as int
    } else {
        v
    }
}

/// Quotient of `a` and `b`, rounded toward zero.
pub open spec fn tz_div(a: int, b: int) -> int
    recommends
        b != 0,
{
    let q = abs_i(a) / abs_i(b);
    if (a < 0) == (b < 0) {
        q
    } else {
        -q
    }
}

/// Saturating sum, on bits.
pub open spec fn add_bits(a: int, b: int) -> int {
    sat(a + b)
}

/// Saturating difference, on bits.
pub open spec fn sub_bits(a: int, b: int) -> int {
    sat(a - b)
}

/// Saturating product of two scalars, on bits: the exact product of the
/// represented values, rounded toward zero, then clamped.
pub open spec fn mul_bits(a: int, b: int) -> int {
    sat(tz_div(a * b, 65536))
}

/// Saturating quotient of two scalars, on bits. A zero divisor yields the
/// extreme of the numerator's sign, and zero for a zero numerator.
pub open spec fn div_bits(a: int, b: int) -> int {
    if b == 0 {
        if a > 0 {
            i64::MAX as int
        } else if a < 0 {
            i64::MIN as int
        } else {
            0
        }
    } else {
        sat(tz_div(a * 65536, b))
    }
}

/// Remainder after division rounded toward zero, on bits; it carries the
/// sign of the left operand. A zero divisor yields zero.
pub open spec fn rem_bits(a: int, b: int) -> int {
    if b == 0 {
        0
    } else {
        a - tz_div(a, b) * b
    }
}

/// Euclidean (non-negative) remainder, on bits. A zero divisor yields zero.
pub open spec fn rem_euclid_bits(a: int, b: int) -> int {
    if b == 0 {
        0
    } else {
        a % abs_i(b)
    }
}

/// Largest whole multiple of one unit that is at most `a`, on bits.
pub open spec fn floor_bits(a: int) -> int {
    a - (a % 65536)
}

/// Smallest whole multiple of one unit that is at least `a`, on bits,
/// saturating at the top of the range.
pub open spec fn ceil_bits(a: int) -> int {
    if a % 65536 == 0 {
        a
    } else {
        sat(a - (a % 65536) + 65536)
    }
}

/// Saturating magnitude, on bits.
pub open spec fn abs_bits(a: int) -> int {
    sat(abs_i(a))
}

/// The smaller operand, on bits.
pub open spec fn min_bits(a: int, b: int) -> int {
    if a <= b {
        a
    } else {
        b
    }
}

/// The larger operand, on bits.
pub open spec fn max_bits(a: int, b: int) -> int {
    if a >= b {
        a
    } else {
        b
    }
}

/// Clamp between `lo` and `hi`, on bits: values below `lo` become `lo`,
/// then values above `hi` become `hi` (so `lo` wins when `lo > hi`).
pub open spec fn clamp_bits(v: int, lo: int, hi: int) -> int {
    if v < lo {
        lo
    } else if v > hi {
        hi
    } else {
        v
    }
}

/// Map from `[-1, 1]` onto `[0, 1]`, on bits: `(v + 1) / 2`.
pub open spec fn to_unsigned_unit_bits(a: int) -> int {
    div_bits(add_bits(a, 65536), 131072)
}

/// Map from `[0, 1]` onto `[-1, 1]`, on bits: `v * 2 - 1`.
pub open spec fn to_signed_unit_bits(a: int) -> int {
    sub_bits(mul_bits(a, 131072), 65536)
}

/// Iterated saturating product: the scalar `b` raised to the natural
/// exponent `k`, folded from the left starting at one.
pub open spec fn pow_nat_bits(b: int, k: nat) -> int
    decreases k,
{
    if k == 0 {
        65536
    } else {
        mul_bits(pow_nat_bits(b, (k - 1) as nat), b)
    }
}

/// The whole exponent used by `pow`: the right operand truncated toward
/// zero to a whole number, then clamped to `[-64, 64]`.
pub open spec fn pow_exp_of(e: int) -> int {
    let n = tz_div(e, 65536);
    if n > 64 {
        64
    } else if n < -64 {
        -64
    } else {
        n
    }
}

/// Power, on bits: iterated product for non-negative whole exponents, and
/// the reciprocal of the iterated product for negative ones.
pub open spec fn pow_bits(l: int, e: int) -> int {
    let n = pow_exp_of(e);
    if n >= 0 {
        pow_nat_bits(l, n as nat)
    } else {
        div_bits(65536, pow_nat_bits(l, (-n) as nat))
    }
}

/// Power carrying the sign of the left operand, on bits.
pub open spec fn signed_pow_bits(l: int, e: int) -> int {
    let p = pow_bits(l, e);
    if l < 0 {
        sat(-abs_i(p))
    } else {
        sat(abs_i(p))
    }
}

impl Scalar {
    /// The scalar zero.
    pub fn zero() -> (r: Scalar)
        ensures
            r.bits == 0,
    {
        Scalar { bits: 0 }
    }

    /// The scalar one.
    pub fn one() -> (r: Scalar)
        ensures
            r.bits == UNIT,
    {
        Scalar { bits: UNIT }
    }

    /// Builds a scalar directly from a bit count of `1/65536` units.
    pub fn from_raw(bits: i64) -> (r: Scalar)
        ensures
            r.bits == bits,
    {
        Scalar { bits }
    }

    /// Builds the scalar nearest to the integer `whole`, saturating.
    pub fn from_int(whole: i64) -> (r: Scalar)
        ensures
            r.bits == sat(65536 * whole),
    {
        let wide: i128 = 65536 as i128 * whole as i128;
        Scalar { bits: sat_narrow(wide) }
    }

    /// Builds the scalar `num / den` for `num <= den`, rounding down.
    pub fn from_ratio(num: u64, den: u64) -> (r: Scalar)
        requires
            0 < den,
            num <= den,
        ensures
            r.bits == (num as int * 65536) / den as int,
            0 <= r.bits <= 65536,
    {
        let wide: u128 = num as u128 * 65536;
        let q: u128 = wide / den as u128;
        proof {
            lemma_div_is_ordered(num as int * 65536, den as int * 65536, den as int);
            assert(den as int * 65536 / den as int == 65536) by (nonlinear_arith)
                requires
                    0 < den as int,
            ;
            lemma_div_is_ordered(0, num as int * 65536, den as int);
        }
        Scalar { bits: q as i64 }
    }

    /// Saturating addition.
    pub fn add(self, rhs: Scalar) -> (r: Scalar)
        ensures
            r.bits == add_bits(self.bits as int, rhs.bits as int),
    {
        let wide: i128 = self.bits as i128 + rhs.bits as i128;
        Scalar { bits: sat_narrow(wide) }
    }

    /// Saturating subtraction.
    pub fn sub(self, rhs: Scalar) -> (r: Scalar)
        ensures
            r.bits == sub_bits(self.bits as int, rhs.bits as int),
    {
        let wide: i128 = self.bits as i128 - rhs.bits as i128;
        Scalar { bits: sat_narrow(wide) }
    }

    /// Saturating multiplication, rounding toward zero.
    pub fn mul(self, rhs: Scalar) -> (r: Scalar)
        ensures
            r.bits == mul_bits(self.bits as int, rhs.bits as int),
    {
        proof {
            lemma_i64_product_bounded(self.bits as int, rhs.bits as int);
        }
        let wide: i128 = self.bits as i128 * rhs.bits as i128;
        let q = tz_div_exec(wide, 65536);
        Scalar { bits: sat_narrow(q) }
    }

    /// Saturating division, rounding toward zero. Division by zero returns
    /// the extreme of the numerator's sign (zero for a zero numerator).
    pub fn div(self, rhs: Scalar) -> (r: Scalar)
        ensures
            r.bits == div_bits(self.bits as int, rhs.bits as int),
    {
        if rhs.bits == 0 {
            if self.bits > 0 {
                Scalar { bits: i64::MAX }
            } else if self.bits < 0 {
                Scalar { bits: i64::MIN }
            } else {
                Scalar { bits: 0 }
            }
        } else {
            let wide: i128 = self.bits as i128 * 65536;
            let q = tz_div_exec(wide, rhs.bits as i128);
            Scalar { bits: sat_narrow(q) }
        }
    }
}

/// A product's magnitude is the product of the magnitudes.
proof fn lemma_abs_mul(a: int, b: int)
    ensures
        abs_i(a * b) == abs_i(a) * abs_i(b),
{
    if a >= 0 && b >= 0 {
        lemma_mul_nonnegative(a, b);
    } else if a < 0 && b >= 0 {
        lemma_mul_unary_negation(-a, b);
        lemma_mul_nonnegative(-a, b);
    } else if a >= 0 && b < 0 {
        lemma_mul_is_commutative(a, b);
        lemma_mul_is_commutative(-b, a);
        lemma_mul_unary_negation(-b, a);
        lemma_mul_nonnegative(-b, a);
    } else {
        lemma_mul_cancels_negatives(a, b);
        lemma_mul_nonnegative(-a, -b);
    }
}

/// The product of two 64-bit values stays within the 128-bit range.
proof fn lemma_i64_product_bounded(a: int, b: int)
    requires
        i64::MIN as int <= a <= i64::MAX as int,
        i64::MIN as int <= b <= i64::MAX as int,
    ensures
        abs_i(a * b) <= 0x4000_0000_0000_0000_0000_0000_0000_0000,
{
    lemma_abs_mul(a, b);
    lemma_mul_upper_bound(abs_i(a), 0x8000_0000_0000_0000, abs_i(b), 0x8000_0000_0000_0000);
}

/// Clamps a wide intermediate result back into `Scalar` bits.
fn sat_narrow(w: i128) -> (r: i64)
    ensures
        r as int == sat(w as int),
{
    if w > i64::MAX as i128 {
        i64::MAX
    } else if w < i64::MIN as i128 {
        i64::MIN
    } else {
        w as i64
    }
}

/// Wide quotient rounded toward zero.
fn tz_div_exec(n: i128, d: i128) -> (q: i128)
    requires
        d != 0,
        -0x8000_0000_0000_0000_0000_0000_0000_0000 < n,
        -0x8000_0000_0000_0000_0000_0000_0000_0000 < d,
    ensures
        q as int == tz_div(n as int, d as int),
{
    let nn: i128 = if n < 0 {
        -n
    } else {
        n
    };
    let dd: i128 = if d < 0 {
        -d
    } else {
        d
    };
    let qq: i128 = nn / dd;
    proof {
        lemma_div_nonincreasing(nn as int, dd as int);
    }
    if (n < 0) == (d < 0) {
        qq
    } else {
        -qq
    }
}

/// Relates the truncated remainder to magnitudes: it is the Euclidean
/// remainder of the magnitudes, carrying the left operand's sign.
proof fn lemma_tz_rem(a: int, b: int)
    requires
        b != 0,
    ensures
        a - tz_div(a, b) * b == if a < 0 {
            -(abs_i(a) % abs_i(b))
        } else {
            abs_i(a) % abs_i(b)
        },
{
    let ma = abs_i(a);
    let mb = abs_i(b);
    let d = ma / mb;
    let rr = ma % mb;
    lemma_fundamental_div_mod(ma, mb);
    lemma_mul_is_commutative(mb, d);
    if a >= 0 && b > 0 {
        assert(a - tz_div(a, b) * b == ma - d * mb);
    } else if a >= 0 && b < 0 {
        lemma_mul_unary_negation(d, b);
        assert(d * mb == -(d * b));
        assert(a - tz_div(a, b) * b == ma + d * b);
        assert(ma == -(d * b) + rr);
    } else if a < 0 && b > 0 {
        lemma_mul_unary_negation(d, b);
        assert(a - tz_div(a, b) * b == -ma + d * b);
        assert(ma == d * b + rr);
    } else {
        lemma_mul_unary_negation(d, mb);
        assert(d * b == d * (-mb));
        assert(a - tz_div(a, b) * b == -ma + d * mb);
    }
}

/// Euclidean remainder of a negated value, for a positive divisor.
proof fn lemma_mod_negated(ma: int, m: int)
    requires
        0 <= ma,
        0 < m,
    ensures
        (-ma) % m == if ma % m == 0 {
            0
        } else {
            m - (ma % m)
        },
{
    let d = ma / m;
    let rr = ma % m;
    lemma_fundamental_div_mod(ma, m);
    lemma_mod_bound(ma, m);
    lemma_mul_is_commutative(m, d);
    lemma_mul_unary_negation(d, m);
    if rr == 0 {
        lemma_fundamental_div_mod_converse(-ma, m, -d, 0);
    } else {
        lemma_mul_is_distributive_add_other_way(m, -d, -1);
        lemma_fundamental_div_mod_converse(-ma, m, -d - 1, m - rr);
    }
}

/// The floor of a representable value is representable.
proof fn lemma_floor_in_range(a: int)
    requires
        i64::MIN as int <= a <= i64::MAX as int,
    ensures
        i64::MIN as int <= a - (a % 65536) <= a,
        0 <= a % 65536 < 65536,
{
    lemma_fundamental_div_mod(a, 65536);
    lemma_mod_bound(a, 65536);
    lemma_div_is_ordered(i64::MIN as int, a, 65536);
    assert((i64::MIN as int) / 65536 == -0x8000_0000_0000);
    lemma_mul_inequality(-0x8000_0000_0000, a / 65536, 65536);
    lemma_mul_is_commutative(a / 65536, 65536);
}

impl Scalar {
    /// Truncated remainder: what is left after removing the whole quotient,
    /// rounded toward zero; it carries the sign of the left operand. A zero
    /// divisor yields zero.
    pub fn rem(self, rhs: Scalar) -> (r: Scalar)
        ensures
            r.bits == rem_bits(self.bits as int, rhs.bits as int),
    {
        if rhs.bits == 0 {
            return Scalar { bits: 0 };
        }
        let ma: i128 = if self.bits < 0 {
            -(self.bits as i128)
        } else {
            self.bits as i128
        };
        let mb: i128 = if rhs.bits < 0 {
            -(rhs.bits as i128)
        } else {
            rhs.bits as i128
        };
        let rm: i128 = ma % mb;
        proof {
            lemma_mod_bound(ma as int, mb as int);
            lemma_tz_rem(self.bits as int, rhs.bits as int);
        }
        if self.bits < 0 {
            Scalar { bits: (-rm) as i64 }
        } else {
            Scalar { bits: rm as i64 }
        }
    }

    /// Euclidean remainder: always in `[0, |rhs|)`. A zero divisor yields
    /// zero.
    pub fn rem_euclid(self, rhs: Scalar) -> (r: Scalar)
        ensures
            r.bits == rem_euclid_bits(self.bits as int, rhs.bits as int),
    {
        if rhs.bits == 0 {
            return Scalar { bits: 0 };
        }
        let ma: i128 = if self.bits < 0 {
            -(self.bits as i128)
        } else {
            self.bits as i128
        };
        let mb: i128 = if rhs.bits < 0 {
            -(rhs.bits as i128)
        } else {
            rhs.bits as i128
        };
        let rm: i128 = ma % mb;
        proof {
            lemma_mod_bound(ma as int, mb as int);
            if self.bits < 0 {
                lemma_mod_negated(ma as int, mb as int);
            }
        }
        if self.bits >= 0 {
            Scalar { bits: rm as i64 }
        } else if rm == 0 {
            Scalar { bits: 0 }
        } else {
            Scalar { bits: (mb - rm) as i64 }
        }
    }

    /// Rounds down to a whole number of units.
    pub fn floor(self) -> (r: Scalar)
        ensures
            r.bits == floor_bits(self.bits as int),
    {
        let frac = self.rem_euclid(Scalar { bits: UNIT });
        proof {
            lemma_floor_in_range(self.bits as int);
        }
        Scalar { bits: self.bits - frac.bits }
    }

    /// Rounds up to a whole number of units, saturating at the top.
    pub fn ceil(self) -> (r: Scalar)
        ensures
            r.bits == ceil_bits(self.bits as int),
    {
        let frac = self.rem_euclid(Scalar { bits: UNIT });
        proof {
            lemma_floor_in_range(self.bits as int);
        }
        if frac.bits == 0 {
            self
        } else {
            let wide: i128 = self.bits as i128 - frac.bits as i128 + 65536;
            Scalar { bits: sat_narrow(wide) }
        }
    }

    /// Saturating magnitude.
    pub fn abs(self) -> (r: Scalar)
        ensures
            r.bits == abs_bits(self.bits as int),
    {
        if self.bits >= 0 {
            self
        } else {
            Scalar { bits: sat_narrow(-(self.bits as i128)) }
        }
    }

    /// The smaller of the two scalars.
    pub fn min(self, rhs: Scalar) -> (r: Scalar)
        ensures
            r.bits == min_bits(self.bits as int, rhs.bits as int),
    {
        if self.bits <= rhs.bits {
            self
        } else {
            rhs
        }
    }

    /// The larger of the two scalars.
    pub fn max(self, rhs: Scalar) -> (r: Scalar)
        ensures
            r.bits == max_bits(self.bits as int, rhs.bits as int),
    {
        if self.bits >= rhs.bits {
            self
        } else {
            rhs
        }
    }

    /// Clamp between `lo` and `hi`; when `lo > hi`, the lower bound wins.
    pub fn clamp_between(self, lo: Scalar, hi: Scalar) -> (r: Scalar)
        ensures
            r.bits == clamp_bits(self.bits as int, lo.bits as int, hi.bits as int),
    {
        if self.bits < lo.bits {
            lo
        } else if self.bits > hi.bits {
            hi
        } else {
            self
        }
    }

    /// Maps `[-1, 1]` onto `[0, 1]`: `(v + 1) / 2`.
    pub fn to_unsigned_unit(self) -> (r: Scalar)
        ensures
            r.bits == to_unsigned_unit_bits(self.bits as int),
    {
        self.add(Scalar { bits: UNIT }).div(Scalar { bits: 2 * UNIT })
    }

    /// Maps `[0, 1]` onto `[-1, 1]`: `v * 2 - 1`.
    pub fn to_signed_unit(self) -> (r: Scalar)
        ensures
            r.bits == to_signed_unit_bits(self.bits as int),
    {
        self.mul(Scalar { bits: 2 * UNIT }).sub(Scalar { bits: UNIT })
    }

    /// Raises the scalar to the power of `rhs`. The exponent is truncated
    /// toward zero to a whole number and clamped to `[-64, 64]`; a negative
    /// exponent takes the reciprocal of the corresponding positive power.
    pub fn pow(self, rhs: Scalar) -> (r: Scalar)
        ensures
            r.bits == pow_bits(self.bits as int, rhs.bits as int),
    {
        let n0: i128 = tz_div_exec(rhs.bits as i128, 65536);
        let n: i64 = if n0 > 64 {
            64
        } else if n0 < -64 {
            -64
        } else {
            n0 as i64
        };
        if n >= 0 {
            self.pow_whole(n as u64)
        } else {
            let p = self.pow_whole((-n) as u64);
            Scalar { bits: UNIT }.div(p)
        }
    }

    /// Iterated saturating product: `self` raised to `k`.
    fn pow_whole(self, k: u64) -> (r: Scalar)
        requires
            k <= 64,
        ensures
            r.bits == pow_nat_bits(self.bits as int, k as nat),
    {
        let mut acc = Scalar { bits: UNIT };
        let mut i: u64 = 0;
        while i < k
            invariant
                i <= k,
                acc.bits == pow_nat_bits(self.bits as int, i as nat),
            decreases k - i,
        {
            acc = acc.mul(self);
            i = i + 1;
        }
        acc
    }

    /// Like `pow`, but the result always carries the sign of `self`.
    pub fn signed_pow(self, rhs: Scalar) -> (r: Scalar)
        ensures
            r.bits == signed_pow_bits(self.bits as int, rhs.bits as int),
    {
        let p = self.pow(rhs);
        if self.bits < 0 {
            if p.bits > 0 {
                Scalar { bits: -p.bits }
            } else {
                p
            }
        } else {
            p.abs()
        }
    }
}

/// Spec-level saturating sum of two scalars.
pub open spec fn s_add(a: Scalar, b: Scalar) -> Scalar {
    Scalar { bits: add_bits(a.bits as int, b.bits as int) as i64 }
}

/// Spec-level saturating difference of two scalars.
pub open spec fn s_sub(a: Scalar, b: Scalar) -> Scalar {
    Scalar { bits: sub_bits(a.bits as int, b.bits as int) as i64 }
}

/// Spec-level saturating product of two scalars.
pub open spec fn s_mul(a: Scalar, b: Scalar) -> Scalar {
    Scalar { bits: mul_bits(a.bits as int, b.bits as int) as i64 }
}

/// Spec-level saturating quotient of two scalars.
pub open spec fn s_div(a: Scalar, b: Scalar) -> Scalar {
    Scalar { bits: div_bits(a.bits as int, b.bits as int) as i64 }
}

/// Spec-level truncated remainder of two scalars.
pub open spec fn s_rem(a: Scalar, b: Scalar) -> Scalar {
    Scalar { bits: rem_bits(a.bits as int, b.bits as int) as i64 }
}

/// Spec-level Euclidean remainder of two scalars.
pub open spec fn s_rem_euclid(a: Scalar, b: Scalar) -> Scalar {
    Scalar { bits: rem_euclid_bits(a.bits as int, b.bits as int) as i64 }
}

/// Spec-level floor of a scalar.
pub open spec fn s_floor(a: Scalar) -> Scalar {
    Scalar { bits: floor_bits(a.bits as int) as i64 }
}

/// Spec-level ceiling of a scalar.
pub open spec fn s_ceil(a: Scalar) -> Scalar {
    Scalar { bits: ceil_bits(a.bits as int) as i64 }
}

/// Spec-level saturating magnitude of a scalar.
pub open spec fn s_abs(a: Scalar) -> Scalar {
    Scalar { bits: abs_bits(a.bits as int) as i64 }
}

/// Spec-level minimum of two scalars.
pub open spec fn s_min(a: Scalar, b: Scalar) -> Scalar {
    Scalar { bits: min_bits(a.bits as int, b.bits as int) as i64 }
}

/// Spec-level maximum of two scalars.
pub open spec fn s_max(a: Scalar, b: Scalar) -> Scalar {
    Scalar { bits: max_bits(a.bits as int, b.bits as int) as i64 }
}

/// Spec-level clamp of a scalar between two bounds.
pub open spec fn s_clamp(v: Scalar, lo: Scalar, hi: Scalar) -> Scalar {
    Scalar { bits: clamp_bits(v.bits as int, lo.bits as int, hi.bits as int) as i64 }
}

/// Spec-level map from `[-1, 1]` onto `[0, 1]`.
pub open spec fn s_to_unsigned_unit(a: Scalar) -> Scalar {
    Scalar { bits: to_unsigned_unit_bits(a.bits as int) as i64 }
}

/// Spec-level map from `[0, 1]` onto `[-1, 1]`.
pub open spec fn s_to_signed_unit(a: Scalar) -> Scalar {
    Scalar { bits: to_signed_unit_bits(a.bits as int) as i64 }
}

/// Spec-level power of two scalars.
pub open spec fn s_pow(l: Scalar, e: Scalar) -> Scalar {
    Scalar { bits: pow_bits(l.bits as int, e.bits as int) as i64 }
}

/// Spec-level sign-preserving power of two scalars.
pub open spec fn s_signed_pow(l: Scalar, e: Scalar) -> Scalar {
    Scalar { bits: signed_pow_bits(l.bits as int, e.bits as int) as i64 }
}

/// A quotient of an exact multiple recovers the factor.
pub proof fn lemma_tz_div_multiple(x: int, d: int)
    requires
        0 < d,
    ensures
        tz_div(x * d, d) == x,
{
    lemma_abs_mul(x, d);
    lemma_div_by_multiple(abs_i(x), d);
    if x < 0 {
        lemma_mul_strictly_positive(-x, d);
        lemma_mul_unary_negation(x, d);
    } else if x > 0 {
        lemma_mul_strictly_positive(x, d);
    }
}

/// Mapping a scalar onto `[-1, 1]` and back onto `[0, 1]` returns it
/// unchanged, for every scalar whose doubling stays in range.
pub proof fn lemma_unit_round_trip(a: int)
    requires
        -0x3FFF_FFFF_FFFF_8000 <= a <= 0x3FFF_FFFF_FFFF_FFFF,
    ensures
        to_unsigned_unit_bits(to_signed_unit_bits(a)) == a,
{
    assert(a * 131072 == (2 * a) * 65536) by (nonlinear_arith);
    lemma_tz_div_multiple(2 * a, 65536);
    assert(mul_bits(a, 131072) == 2 * a);
    let s = to_signed_unit_bits(a);
    assert(s == 2 * a - 65536);
    assert(add_bits(s, 65536) == 2 * a);
    assert((2 * a) * 65536 == a * 131072) by (nonlinear_arith);
    lemma_tz_div_multiple(a, 131072);
    assert(div_bits(2 * a, 131072) == a);
}

} // verus!
