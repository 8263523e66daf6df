//! Laws of the expression trees.
//!
//! These proof functions state, once and for all inputs, the guarantees
//! callers rely on: structurally equivalent trees (in particular a tree and
//! its clone) evaluate identically; coordinate reparameterization nodes
//! evaluate their child at the mapped coordinate; a multi-octave node over
//! a constant child ignores the coordinate, the frequency parameters and
//! the engine, and sums an exact geometric series when its parameters are
//! whole numbers; and mapping onto `[0, 1]` undoes mapping onto `[-1, 1]`.

use crate::scalar::{
    lemma_tz_div_multiple, lemma_unit_round_trip, s_add, s_mul, s_to_signed_unit,
    s_to_unsigned_unit, to_signed_unit_bits, to_unsigned_unit_bits, Scalar, UNIT,
};
use vstd::arithmetic::mul::{lemma_mul_inequality, lemma_mul_nonnegative};
use crate::tree::{
    equiv, s_scale_pos, s_scale_pos_uniform, s_translate_pos, spec_eval, spec_octaves, Noise,
    NoiseEngine, NoiseFunc, Pos,
};
use vstd::prelude::*;

verus! {

/// Equivalent trees evaluate identically: at every coordinate and with
/// every engine, a tree and any structurally equivalent tree (such as its
/// clone) give the same scalar.
pub proof fn lemma_equiv_eval<F: NoiseFunc, E: NoiseEngine>(a: Noise<F>, b: Noise<F>, pos: Pos, e: E)
    requires
        equiv(a, b),
    ensures
        spec_eval(a, pos, e) == spec_eval(b, pos, e),
    decreases a, 0nat,
{
    match (a, b) {
        (
            Noise::Octaves { func: f1, octaves: o1, amp_scale: a1, freq_scale: q1 },
            Noise::Octaves { func: f2, octaves: o2, amp_scale: a2, freq_scale: q2 },
        ) => {
            lemma_equiv_octaves(
                *f1,
                *f2,
                pos,
                o1 as nat,
                Scalar { bits: UNIT },
                Scalar { bits: UNIT },
                a1,
                q1,
                Scalar { bits: 0 },
                e,
            );
        },
        (Noise::Add(l1, r1), Noise::Add(l2, r2)) => {
            lemma_equiv_eval(*l1, *l2, pos, e);
            lemma_equiv_eval(*r1, *r2, pos, e);
        },
        (Noise::Sub(l1, r1), Noise::Sub(l2, r2)) => {
            lemma_equiv_eval(*l1, *l2, pos, e);
            lemma_equiv_eval(*r1, *r2, pos, e);
        },
        (Noise::Mul(l1, r1), Noise::Mul(l2, r2)) => {
            lemma_equiv_eval(*l1, *l2, pos, e);
            lemma_equiv_eval(*r1, *r2, pos, e);
        },
        (Noise::Div(l1, r1), Noise::Div(l2, r2)) => {
            lemma_equiv_eval(*l1, *l2, pos, e);
            lemma_equiv_eval(*r1, *r2, pos, e);
        },
        (Noise::Pow(l1, r1), Noise::Pow(l2, r2)) => {
            lemma_equiv_eval(*l1, *l2, pos, e);
            lemma_equiv_eval(*r1, *r2, pos, e);
        },
        (Noise::Rem(l1, r1), Noise::Rem(l2, r2)) => {
            lemma_equiv_eval(*l1, *l2, pos, e);
            lemma_equiv_eval(*r1, *r2, pos, e);
        },
        (Noise::RemEuclid(l1, r1), Noise::RemEuclid(l2, r2)) => {
            lemma_equiv_eval(*l1, *l2, pos, e);
            lemma_equiv_eval(*r1, *r2, pos, e);
        },
        (Noise::SignedPow(l1, r1), Noise::SignedPow(l2, r2)) => {
            lemma_equiv_eval(*l1, *l2, pos, e);
            lemma_equiv_eval(*r1, *r2, pos, e);
        },
        (Noise::Floor(v1), Noise::Floor(v2)) => {
            lemma_equiv_eval(*v1, *v2, pos, e);
        },
        (Noise::Ceil(v1), Noise::Ceil(v2)) => {
            lemma_equiv_eval(*v1, *v2, pos, e);
        },
        (Noise::Abs(v1), Noise::Abs(v2)) => {
            lemma_equiv_eval(*v1, *v2, pos, e);
        },
        (Noise::Min(l1, r1), Noise::Min(l2, r2)) => {
            lemma_equiv_eval(*l1, *l2, pos, e);
            lemma_equiv_eval(*r1, *r2, pos, e);
        },
        (Noise::Max(l1, r1), Noise::Max(l2, r2)) => {
            lemma_equiv_eval(*l1, *l2, pos, e);
            lemma_equiv_eval(*r1, *r2, pos, e);
        },
        (Noise::Clamp { func: f1, .. }, Noise::Clamp { func: f2, .. }) => {
            lemma_equiv_eval(*f1, *f2, pos, e);
        },
        (Noise::ToUnsignedUnit(v1), Noise::ToUnsignedUnit(v2)) => {
            lemma_equiv_eval(*v1, *v2, pos, e);
        },
        (Noise::ToSignedUnit(v1), Noise::ToSignedUnit(v2)) => {
            lemma_equiv_eval(*v1, *v2, pos, e);
        },
        (Noise::CoordTranslate(f1, off), Noise::CoordTranslate(f2, _)) => {
            lemma_equiv_eval(*f1, *f2, s_translate_pos(pos, off), e);
        },
        (Noise::CoordScale(f1, factor), Noise::CoordScale(f2, _)) => {
            lemma_equiv_eval(*f1, *f2, s_scale_pos(pos, factor), e);
        },
        _ => {},
    }
}

/// The octave fold of two equivalent children is the same.
proof fn lemma_equiv_octaves<F: NoiseFunc, E: NoiseEngine>(
    c1: Noise<F>,
    c2: Noise<F>,
    pos: Pos,
    count: nat,
    amp: Scalar,
    freq: Scalar,
    amp_scale: Scalar,
    freq_scale: Scalar,
    acc: Scalar,
    e: E,
)
    requires
        equiv(c1, c2),
    ensures
        spec_octaves(c1, pos, count, amp, freq, amp_scale, freq_scale, acc, e) == spec_octaves(
            c2,
            pos,
            count,
            amp,
            freq,
            amp_scale,
            freq_scale,
            acc,
            e,
        ),
    decreases c1, count,
{
    if count > 0 {
        lemma_equiv_eval(c1, c2, s_scale_pos_uniform(pos, freq), e);
        let term = s_mul(amp, spec_eval(c1, s_scale_pos_uniform(pos, freq), e));
        lemma_equiv_octaves(
            c1,
            c2,
            pos,
            (count - 1) as nat,
            s_mul(amp, amp_scale),
            s_mul(freq, freq_scale),
            amp_scale,
            freq_scale,
            s_add(acc, term),
            e,
        );
    }
}

/// A translation node evaluates its child at the moved coordinate.
pub proof fn lemma_translate_eval<F: NoiseFunc, E: NoiseEngine>(n: Noise<F>, pos: Pos, e: E)
    ensures
        n matches Noise::CoordTranslate(f, off) ==> spec_eval(n, pos, e) == spec_eval(
            *f,
            s_translate_pos(pos, off),
            e,
        ),
{
}

/// A scaling node evaluates its child at the scaled coordinate.
pub proof fn lemma_scale_eval<F: NoiseFunc, E: NoiseEngine>(n: Noise<F>, pos: Pos, e: E)
    ensures
        n matches Noise::CoordScale(f, factor) ==> spec_eval(n, pos, e) == spec_eval(
            *f,
            s_scale_pos(pos, factor),
            e,
        ),
{
}

/// Mapping a field onto `[-1, 1]` and the result back onto `[0, 1]` leaves
/// its value unchanged, wherever the doubled value stays in range (at the
/// extremes of the range the inner map saturates and the identity fails).
pub proof fn lemma_unit_maps_round_trip<F: NoiseFunc, E: NoiseEngine>(n: Noise<F>, pos: Pos, e: E)
    ensures
        n matches Noise::ToUnsignedUnit(m) ==> (*m matches Noise::ToSignedUnit(x) ==> ((
        -0x3FFF_FFFF_FFFF_8000 <= spec_eval(*x, pos, e).bits <= 0x3FFF_FFFF_FFFF_FFFF) ==> spec_eval(
            n,
            pos,
            e,
        ) == spec_eval(*x, pos, e))),
{
    match n {
        Noise::ToUnsignedUnit(m) => {
            match *m {
                Noise::ToSignedUnit(x) => {
                    let inner = spec_eval(*x, pos, e);
                    let v = inner.bits as int;
                    if -0x3FFF_FFFF_FFFF_8000 <= v <= 0x3FFF_FFFF_FFFF_FFFF {
                        lemma_unit_round_trip(v);
                        let s1 = s_to_signed_unit(inner);
                        assert(s1.bits as int == to_signed_unit_bits(v));
                        assert(spec_eval(*m, pos, e) == s1);
                        assert(spec_eval(n, pos, e) == s_to_unsigned_unit(s1));
                        assert(to_unsigned_unit_bits(s1.bits as int) == v);
                        assert(s_to_unsigned_unit(s1).bits == inner.bits);
                    }
                },
                _ => {},
            }
        },
        _ => {},
    }
}

/// Mathematical integer power.
pub open spec fn int_pow(b: int, k: nat) -> int
    decreases k,
{
    if k == 0 {
        1
    } else {
        b * int_pow(b, (k - 1) as nat)
    }
}

/// Geometric series: `1 + r + r^2 + ... + r^(k-1)`.
pub open spec fn geom_sum(r: int, k: nat) -> int
    decreases k,
{
    if k == 0 {
        0
    } else {
        1 + r * geom_sum(r, (k - 1) as nat)
    }
}

/// A power of a non-negative base is non-negative, and at least one when
/// the base is at least one.
proof fn lemma_int_pow_bounds(b: int, k: nat)
    requires
        0 <= b,
    ensures
        0 <= int_pow(b, k),
        1 <= b ==> 1 <= int_pow(b, k),
    decreases k,
{
    if k > 0 {
        lemma_int_pow_bounds(b, (k - 1) as nat);
        lemma_mul_nonnegative(b, int_pow(b, (k - 1) as nat));
        if 1 <= b {
            lemma_mul_inequality(1, int_pow(b, (k - 1) as nat), b);
        }
    }
}

/// A geometric series of a non-negative ratio is non-negative, and at
/// least one when at least one term is summed.
proof fn lemma_geom_sum_bounds(r: int, k: nat)
    requires
        0 <= r,
    ensures
        0 <= geom_sum(r, k),
        1 <= k ==> 1 <= geom_sum(r, k),
    decreases k,
{
    if k > 0 {
        lemma_geom_sum_bounds(r, (k - 1) as nat);
        lemma_mul_nonnegative(r, geom_sum(r, (k - 1) as nat));
    }
}

/// The octave fold over a constant child ignores the coordinate, the
/// frequency parameters and the engine entirely.
proof fn lemma_octaves_const_params<F: NoiseFunc, E: NoiseEngine>(
    c: Scalar,
    p: Pos,
    q: Pos,
    count: nat,
    amp: Scalar,
    f1: Scalar,
    f2: Scalar,
    amp_scale: Scalar,
    fs1: Scalar,
    fs2: Scalar,
    acc: Scalar,
    e1: E,
    e2: E,
)
    ensures
        spec_octaves(Noise::<F>::Const(c), p, count, amp, f1, amp_scale, fs1, acc, e1)
            == spec_octaves(Noise::<F>::Const(c), q, count, amp, f2, amp_scale, fs2, acc, e2),
    decreases count,
{
    if count > 0 {
        assert(spec_eval(Noise::<F>::Const(c), s_scale_pos_uniform(p, f1), e1) == c);
        assert(spec_eval(Noise::<F>::Const(c), s_scale_pos_uniform(q, f2), e2) == c);
        lemma_octaves_const_params::<F, E>(
            c,
            p,
            q,
            (count - 1) as nat,
            s_mul(amp, amp_scale),
            s_mul(f1, fs1),
            s_mul(f2, fs2),
            amp_scale,
            fs1,
            fs2,
            s_add(acc, s_mul(amp, c)),
            e1,
            e2,
        );
    }
}

/// A multi-octave node over a constant child is a fixed field: its value
/// does not depend on the coordinate or on the engine.
pub proof fn lemma_octaves_of_const<F: NoiseFunc, E: NoiseEngine>(
    n: Noise<F>,
    c: Scalar,
    p: Pos,
    q: Pos,
    e1: E,
    e2: E,
)
    requires
        n matches Noise::Octaves { func, .. } && *func == Noise::<F>::Const(c),
    ensures
        spec_eval(n, p, e1) == spec_eval(n, q, e2),
{
    match n {
        Noise::Octaves { func, octaves, amp_scale, freq_scale } => {
            lemma_octaves_const_params::<F, E>(
                c,
                p,
                q,
                octaves as nat,
                Scalar { bits: UNIT },
                Scalar { bits: UNIT },
                Scalar { bits: UNIT },
                amp_scale,
                freq_scale,
                freq_scale,
                Scalar { bits: 0 },
                e1,
                e2,
            );
        },
        _ => {},
    }
}

/// The octave fold over a constant child with whole-number parameters sums
/// an exact geometric series.
proof fn lemma_octaves_const_exact_rec<F: NoiseFunc, E: NoiseEngine>(
    c: Scalar,
    pos: Pos,
    count: nat,
    amp: Scalar,
    freq: Scalar,
    amp_scale: Scalar,
    freq_scale: Scalar,
    acc: Scalar,
    e: E,
    cw: int,
    aw: int,
    pv: int,
    sv: int,
)
    requires
        c.bits == 65536 * cw && 0 <= cw,
        amp_scale.bits == 65536 * aw && 0 <= aw,
        amp.bits == 65536 * pv && 0 <= pv,
        acc.bits == 65536 * sv && 0 <= sv,
        65536 * (sv + cw * pv * geom_sum(aw, count)) <= i64::MAX as int,
        65536 * (pv * int_pow(aw, count)) <= i64::MAX as int,
    ensures
        spec_octaves(Noise::<F>::Const(c), pos, count, amp, freq, amp_scale, freq_scale, acc, e).bits
            == 65536 * (sv + cw * pv * geom_sum(aw, count)),
    decreases count,
{
    lemma_mul_nonnegative(cw, pv);
    if count == 0 {
        assert(cw * pv * geom_sum(aw, 0) == 0) by (nonlinear_arith)
            requires
                geom_sum(aw, 0) == 0,
        ;
    } else {
        let k = (count - 1) as nat;
        let ip = int_pow(aw, k);
        let gs = geom_sum(aw, k);
        lemma_int_pow_bounds(aw, k);
        lemma_geom_sum_bounds(aw, k);
        lemma_mul_nonnegative(aw, gs);
        lemma_mul_nonnegative(pv, aw);
        lemma_mul_nonnegative(pv, ip);
        lemma_mul_nonnegative(cw * pv, aw * gs);

        // The bound on the whole sum also bounds its first summand.
        assert(cw * pv * geom_sum(aw, count) == cw * pv + cw * pv * (aw * gs)) by (nonlinear_arith)
            requires
                geom_sum(aw, count) == 1 + aw * gs,
        ;

        // The fold's next term is the exact product `pv * cw`, one unit up.
        let term = s_mul(amp, c);
        assert((65536 * pv) * (65536 * cw) == (65536 * (pv * cw)) * 65536) by (nonlinear_arith);
        lemma_tz_div_multiple(65536 * (pv * cw), 65536);
        lemma_mul_nonnegative(pv, cw);
        assert(pv * cw == cw * pv) by (nonlinear_arith);
        assert(term.bits == 65536 * (pv * cw));
        assert(spec_eval(Noise::<F>::Const(c), s_scale_pos_uniform(pos, freq), e) == c);

        // The new accumulator is exact as well.
        let acc2 = s_add(acc, term);
        assert(acc2.bits == 65536 * (sv + pv * cw));

        // The new amplitude is the exact product `pv * aw`, one unit up.
        let amp2 = s_mul(amp, amp_scale);
        assert((65536 * pv) * (65536 * aw) == (65536 * (pv * aw)) * 65536) by (nonlinear_arith);
        lemma_tz_div_multiple(65536 * (pv * aw), 65536);
        assert(pv * aw <= pv * int_pow(aw, count)) by (nonlinear_arith)
            requires
                int_pow(aw, count) == aw * ip,
                0 <= pv,
                0 <= aw,
                aw == 0 || 1 <= ip,
        ;
        assert(amp2.bits == 65536 * (pv * aw));

        // Step the induction.
        assert((pv * aw) * ip == pv * int_pow(aw, count)) by (nonlinear_arith)
            requires
                int_pow(aw, count) == aw * ip,
        ;
        assert(sv + pv * cw + cw * (pv * aw) * gs == sv + cw * pv * geom_sum(aw, count)) by (nonlinear_arith)
            requires
                geom_sum(aw, count) == 1 + aw * gs,
        ;
        lemma_octaves_const_exact_rec::<F, E>(
            c,
            pos,
            k,
            amp2,
            s_mul(freq, freq_scale),
            amp_scale,
            freq_scale,
            acc2,
            e,
            cw,
            aw,
            pv * aw,
            sv + pv * cw,
        );
    }
}

/// A multi-octave node over a constant whole number `c`, with a whole
/// amplitude factor `a` and `n` octaves, evaluates to exactly
/// `c * (1 + a + a^2 + ... + a^(n-1))`, at every coordinate, whenever that
/// sum and the amplitudes along the way stay in range.
pub proof fn lemma_octaves_of_const_formula<F: NoiseFunc, E: NoiseEngine>(
    n: Noise<F>,
    c: Scalar,
    p: Pos,
    e: E,
)
    requires
        n matches Noise::Octaves { func, octaves, amp_scale, .. } && *func == Noise::<F>::Const(c)
            && c.bits == 65536 * (c.bits as int / 65536) && 0 <= c.bits && amp_scale.bits == 65536
            * (amp_scale.bits as int / 65536) && 0 <= amp_scale.bits && 65536 * ((c.bits as int
            / 65536) * geom_sum(amp_scale.bits as int / 65536, octaves as nat)) <= i64::MAX as int
            && 65536 * int_pow(amp_scale.bits as int / 65536, octaves as nat) <= i64::MAX as int,
    ensures
        n matches Noise::Octaves { octaves, amp_scale, .. } ==> spec_eval(n, p, e).bits == 65536 * (
        (c.bits as int / 65536) * geom_sum(amp_scale.bits as int / 65536, octaves as nat)),
{
    match n {
        Noise::Octaves { func, octaves, amp_scale, freq_scale } => {
            let cw = c.bits as int / 65536;
            let aw = amp_scale.bits as int / 65536;
            let count = octaves as nat;
            assert(1 * int_pow(aw, count) == int_pow(aw, count)) by (nonlinear_arith);
            assert(cw * 1 * geom_sum(aw, count) == cw * geom_sum(aw, count)) by (nonlinear_arith);
            lemma_octaves_const_exact_rec::<F, E>(
                c,
                p,
                count,
                Scalar { bits: UNIT },
                Scalar { bits: UNIT },
                amp_scale,
                freq_scale,
                Scalar { bits: 0 },
                e,
                cw,
                aw,
                1,
                0,
            );
        },
        _ => {},
    }
}

} // verus!
