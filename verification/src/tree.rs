//! Expression trees over 2D coordinates.
//!
//! A `Noise` value is an immutable tree describing a scalar field: leaves
//! are constants, seeded noise primitives, or callback objects; inner nodes
//! combine child fields with fixed scalar operations or reparameterize the
//! child's input coordinate. Evaluation is pure: the spec function
//! `spec_eval` gives the value of every tree at every coordinate, and the
//! executable `eval` is proved to return exactly that value.

use crate::scalar::{
    s_abs, s_add, s_ceil, s_clamp, s_div, s_floor, s_max, s_min, s_mul, s_pow, s_rem,
    s_rem_euclid, s_signed_pow, s_sub, s_to_signed_unit, s_to_unsigned_unit, Scalar, UNIT,
};
use vstd::prelude::*;

verus! {

/// A 2D coordinate with fixed-point components.
#[derive(Clone, Copy, PartialEq, Eq, Structural, Debug)]
pub struct Pos {
    pub x: Scalar,
    pub y: Scalar,
}

/// Spec-level translation of a coordinate by an offset.
pub open spec fn s_translate_pos(p: Pos, off: Pos) -> Pos {
    Pos { x: s_add(p.x, off.x), y: s_add(p.y, off.y) }
}

/// Spec-level componentwise scaling of a coordinate.
pub open spec fn s_scale_pos(p: Pos, factor: Pos) -> Pos {
    Pos { x: s_mul(p.x, factor.x), y: s_mul(p.y, factor.y) }
}

/// Spec-level uniform scaling of a coordinate by one scalar.
pub open spec fn s_scale_pos_uniform(p: Pos, factor: Scalar) -> Pos {
    Pos { x: s_mul(p.x, factor), y: s_mul(p.y, factor) }
}

impl Pos {
    /// Builds a coordinate from its two components.
    pub fn new(x: Scalar, y: Scalar) -> (r: Pos)
        ensures
            r == (Pos { x, y }),
    {
        Pos { x, y }
    }

    /// The coordinate moved by `off`.
    pub fn translated(self, off: Pos) -> (r: Pos)
        ensures
            r == s_translate_pos(self, off),
    {
        Pos { x: self.x.add(off.x), y: self.y.add(off.y) }
    }

    /// The coordinate scaled componentwise by `factor`.
    pub fn scaled(self, factor: Pos) -> (r: Pos)
        ensures
            r == s_scale_pos(self, factor),
    {
        Pos { x: self.x.mul(factor.x), y: self.y.mul(factor.y) }
    }

    /// The coordinate with both components scaled by one scalar.
    pub fn scaled_uniform(self, factor: Scalar) -> (r: Pos)
        ensures
            r == s_scale_pos_uniform(self, factor),
    {
        Pos { x: self.x.mul(factor), y: self.y.mul(factor) }
    }
}

/// A callback leaf: an arbitrary pure function of a coordinate, packaged so
/// that a tree holding one can still be duplicated. `spec_eval` names the
/// function the callback computes, `eval` must return exactly that, and
/// `duplicate` must produce an object computing the same function.
pub trait NoiseFunc: Sized {
    /// The pure function this callback computes.
    spec fn spec_eval(&self, pos: Pos) -> Scalar;

    /// Evaluates the callback at `pos`.
    fn eval(&self, pos: Pos) -> (r: Scalar)
        ensures
            r == self.spec_eval(pos),
    ;

    /// Produces an independent copy that computes the same function.
    fn duplicate(&self) -> (r: Self)
        ensures
            forall|p: Pos| #[trigger] r.spec_eval(p) == self.spec_eval(p),
    ;
}

/// A callback that ignores the coordinate and returns a fixed scalar.
#[derive(Clone, Copy, PartialEq, Eq, Structural, Debug)]
pub struct ConstFunc {
    pub value: Scalar,
}

impl NoiseFunc for ConstFunc {
    open spec fn spec_eval(&self, pos: Pos) -> Scalar {
        self.value
    }

    fn eval(&self, pos: Pos) -> (r: Scalar) {
        self.value
    }

    fn duplicate(&self) -> (r: Self) {
        ConstFunc { value: self.value }
    }
}

/// A source of seeded 2D noise: one smooth/continuous sampling mode and one
/// fast/approximate mode. Both are deterministic in the seed and the
/// coordinate; `smooth_spec` and `fast_spec` name the two fields an engine
/// realizes, and the executable methods must return exactly those values.
pub trait NoiseEngine {
    /// The field realized by the smooth sampling mode.
    spec fn smooth_spec(&self, seed: i64, pos: Pos) -> Scalar;

    /// The field realized by the fast sampling mode.
    spec fn fast_spec(&self, seed: i64, pos: Pos) -> Scalar;

    /// Samples the smooth mode.
    fn smooth(&self, seed: i64, pos: Pos) -> (r: Scalar)
        ensures
            r == self.smooth_spec(seed, pos),
    ;

    /// Samples the fast mode.
    fn fast(&self, seed: i64, pos: Pos) -> (r: Scalar)
        ensures
            r == self.fast_spec(seed, pos),
    ;
}

/// The engine whose noise is identically zero, for contexts that have no
/// noise backend attached.
#[derive(Clone, Copy, PartialEq, Eq, Structural, Debug)]
pub struct ZeroEngine {}

impl NoiseEngine for ZeroEngine {
    open spec fn smooth_spec(&self, seed: i64, pos: Pos) -> Scalar {
        Scalar { bits: 0 }
    }

    open spec fn fast_spec(&self, seed: i64, pos: Pos) -> Scalar {
        Scalar { bits: 0 }
    }

    fn smooth(&self, seed: i64, pos: Pos) -> (r: Scalar) {
        Scalar { bits: 0 }
    }

    fn fast(&self, seed: i64, pos: Pos) -> (r: Scalar) {
        Scalar { bits: 0 }
    }
}

/// An immutable expression tree describing a scalar field over 2D
/// coordinates. Every node exclusively owns its children.
pub enum Noise<F: NoiseFunc> {
    /// A fixed scalar.
    Const(Scalar),
    /// A callback leaf.
    Func(F),
    /// Seeded noise, smooth sampling mode.
    Simplex(i64),
    /// Seeded noise, fast sampling mode.
    SimplexFast(i64),
    /// Sum of repeated evaluations of the child with geometrically scaled
    /// amplitude and frequency.
    Octaves {
        /// The repeated child field.
        func: Box<Noise<F>>,
        /// How many repetitions are summed.
        octaves: usize,
        /// Factor applied to the amplitude after each repetition.
        amp_scale: Scalar,
        /// Factor applied to the frequency after each repetition.
        freq_scale: Scalar,
    },
    /// Sum of the two child results.
    Add(Box<Noise<F>>, Box<Noise<F>>),
    /// Difference of the two child results.
    Sub(Box<Noise<F>>, Box<Noise<F>>),
    /// Product of the two child results.
    Mul(Box<Noise<F>>, Box<Noise<F>>),
    /// Quotient of the two child results.
    Div(Box<Noise<F>>, Box<Noise<F>>),
    /// Left child result raised to the right child result.
    Pow(Box<Noise<F>>, Box<Noise<F>>),
    /// Truncated remainder of the two child results.
    Rem(Box<Noise<F>>, Box<Noise<F>>),
    /// Euclidean (non-negative) remainder of the two child results.
    RemEuclid(Box<Noise<F>>, Box<Noise<F>>),
    /// Power that preserves the sign of the left child result.
    SignedPow(Box<Noise<F>>, Box<Noise<F>>),
    /// Floor of the child result.
    Floor(Box<Noise<F>>),
    /// Ceiling of the child result.
    Ceil(Box<Noise<F>>),
    /// Magnitude of the child result.
    Abs(Box<Noise<F>>),
    /// The smaller of the two child results.
    Min(Box<Noise<F>>, Box<Noise<F>>),
    /// The larger of the two child results.
    Max(Box<Noise<F>>, Box<Noise<F>>),
    /// The child result clamped to `[min, max]`.
    Clamp {
        /// The clamped child field.
        func: Box<Noise<F>>,
        /// Lower bound.
        min: Scalar,
        /// Upper bound.
        max: Scalar,
    },
    /// The child result mapped from `[-1, 1]` onto `[0, 1]`.
    ToUnsignedUnit(Box<Noise<F>>),
    /// The child result mapped from `[0, 1]` onto `[-1, 1]`.
    ToSignedUnit(Box<Noise<F>>),
    /// The child field evaluated at the coordinate moved by an offset.
    CoordTranslate(Box<Noise<F>>, Pos),
    /// The child field evaluated at the coordinate scaled componentwise.
    CoordScale(Box<Noise<F>>, Pos),
}

/// The value of a tree at a coordinate, with noise leaves read from the
/// engine `e`.
pub open spec fn spec_eval<F: NoiseFunc, E: NoiseEngine>(n: Noise<F>, pos: Pos, e: E) -> Scalar
    decreases n, 0nat,
{
    match n {
        Noise::Const(v) => v,
        Noise::Func(f) => f.spec_eval(pos),
        Noise::Simplex(seed) => e.smooth_spec(seed, pos),
        Noise::SimplexFast(seed) => e.fast_spec(seed, pos),
        Noise::Octaves { func, octaves, amp_scale, freq_scale } => spec_octaves(
            *func,
            pos,
            octaves as nat,
            Scalar { bits: UNIT },
            Scalar { bits: UNIT },
            amp_scale,
            freq_scale,
            Scalar { bits: 0 },
            e,
        ),
        Noise::Add(l, r) => s_add(spec_eval(*l, pos, e), spec_eval(*r, pos, e)),
        Noise::Sub(l, r) => s_sub(spec_eval(*l, pos, e), spec_eval(*r, pos, e)),
        Noise::Mul(l, r) => s_mul(spec_eval(*l, pos, e), spec_eval(*r, pos, e)),
        Noise::Div(l, r) => s_div(spec_eval(*l, pos, e), spec_eval(*r, pos, e)),
        Noise::Pow(l, r) => s_pow(spec_eval(*l, pos, e), spec_eval(*r, pos, e)),
        Noise::Rem(l, r) => s_rem(spec_eval(*l, pos, e), spec_eval(*r, pos, e)),
        Noise::RemEuclid(l, r) => s_rem_euclid(spec_eval(*l, pos, e), spec_eval(*r, pos, e)),
        Noise::SignedPow(l, r) => s_signed_pow(spec_eval(*l, pos, e), spec_eval(*r, pos, e)),
        Noise::Floor(v) => s_floor(spec_eval(*v, pos, e)),
        Noise::Ceil(v) => s_ceil(spec_eval(*v, pos, e)),
        Noise::Abs(v) => s_abs(spec_eval(*v, pos, e)),
        Noise::Min(l, r) => s_min(spec_eval(*l, pos, e), spec_eval(*r, pos, e)),
        Noise::Max(l, r) => s_max(spec_eval(*l, pos, e), spec_eval(*r, pos, e)),
        Noise::Clamp { func, min, max } => s_clamp(spec_eval(*func, pos, e), min, max),
        Noise::ToUnsignedUnit(v) => s_to_unsigned_unit(spec_eval(*v, pos, e)),
        Noise::ToSignedUnit(v) => s_to_signed_unit(spec_eval(*v, pos, e)),
        Noise::CoordTranslate(f, off) => spec_eval(*f, s_translate_pos(pos, off), e),
        Noise::CoordScale(f, factor) => spec_eval(*f, s_scale_pos(pos, factor), e),
    }
}

/// Left fold of the octave sum: with `count` repetitions left, current
/// amplitude `amp`, current frequency `freq`, and partial sum `acc`, adds
/// `amp * child(pos * freq)` and steps the amplitude and frequency by their
/// scale factors.
pub open spec fn spec_octaves<F: NoiseFunc, E: NoiseEngine>(
    child: Noise<F>,
    pos: Pos,
    count: nat,
    amp: Scalar,
    freq: Scalar,
    amp_scale: Scalar,
    freq_scale: Scalar,
    acc: Scalar,
    e: E,
) -> Scalar
    decreases child, count,
{
    if count == 0 {
        acc
    } else {
        let term = s_mul(amp, spec_eval(child, s_scale_pos_uniform(pos, freq), e));
        spec_octaves(
            child,
            pos,
            (count - 1) as nat,
            s_mul(amp, amp_scale),
            s_mul(freq, freq_scale),
            amp_scale,
            freq_scale,
            s_add(acc, term),
            e,
        )
    }
}

impl<F: NoiseFunc> Noise<F> {
    /// Evaluates the tree at `pos`, reading noise leaves from `engine`.
    pub fn eval<E: NoiseEngine>(&self, pos: Pos, engine: &E) -> (r: Scalar)
        ensures
            r == spec_eval(*self, pos, *engine),
        decreases self,
    {
        match self {
            Noise::Const(v) => *v,
            Noise::Func(f) => f.eval(pos),
            Noise::Simplex(seed) => engine.smooth(*seed, pos),
            Noise::SimplexFast(seed) => engine.fast(*seed, pos),
            Noise::Octaves { func, octaves, amp_scale, freq_scale } => {
                let total: usize = *octaves;
                let mut acc = Scalar { bits: 0 };
                let mut amp = Scalar { bits: UNIT };
                let mut freq = Scalar { bits: UNIT };
                let mut i: usize = 0;
                #[verifier::loop_isolation(false)]
                while i < total
                    invariant
                        i <= total,
                        spec_octaves(
                            **func,
                            pos,
                            total as nat,
                            Scalar { bits: UNIT },
                            Scalar { bits: UNIT },
                            *amp_scale,
                            *freq_scale,
                            Scalar { bits: 0 },
                            *engine,
                        ) == spec_octaves(
                            **func,
                            pos,
                            (total - i) as nat,
                            amp,
                            freq,
                            *amp_scale,
                            *freq_scale,
                            acc,
                            *engine,
                        ),
                    decreases total - i,
                {
                    let here = pos.scaled_uniform(freq);
                    let term = amp.mul(func.eval(here, engine));
                    acc = acc.add(term);
                    amp = amp.mul(*amp_scale);
                    freq = freq.mul(*freq_scale);
                    i = i + 1;
                }
                acc
            },
            Noise::Add(l, r) => l.eval(pos, engine).add(r.eval(pos, engine)),
            Noise::Sub(l, r) => l.eval(pos, engine).sub(r.eval(pos, engine)),
            Noise::Mul(l, r) => l.eval(pos, engine).mul(r.eval(pos, engine)),
            Noise::Div(l, r) => l.eval(pos, engine).div(r.eval(pos, engine)),
            Noise::Pow(l, r) => l.eval(pos, engine).pow(r.eval(pos, engine)),
            Noise::Rem(l, r) => l.eval(pos, engine).rem(r.eval(pos, engine)),
            Noise::RemEuclid(l, r) => l.eval(pos, engine).rem_euclid(r.eval(pos, engine)),
            Noise::SignedPow(l, r) => l.eval(pos, engine).signed_pow(r.eval(pos, engine)),
            Noise::Floor(v) => v.eval(pos, engine).floor(),
            Noise::Ceil(v) => v.eval(pos, engine).ceil(),
            Noise::Abs(v) => v.eval(pos, engine).abs(),
            Noise::Min(l, r) => l.eval(pos, engine).min(r.eval(pos, engine)),
            Noise::Max(l, r) => l.eval(pos, engine).max(r.eval(pos, engine)),
            Noise::Clamp { func, min, max } => {
                func.eval(pos, engine).clamp_between(*min, *max)
            },
            Noise::ToUnsignedUnit(v) => v.eval(pos, engine).to_unsigned_unit(),
            Noise::ToSignedUnit(v) => v.eval(pos, engine).to_signed_unit(),
            Noise::CoordTranslate(f, off) => f.eval(pos.translated(*off), engine),
            Noise::CoordScale(f, factor) => f.eval(pos.scaled(*factor), engine),
        }
    }
}

/// Structural equivalence of two trees: the same shape with equal
/// parameters everywhere, except that callback leaves need only compute the
/// same function. Cloning a tree yields an equivalent tree, and equivalent
/// trees evaluate identically (`lemma_equiv_eval`).
pub open spec fn equiv<F: NoiseFunc>(a: Noise<F>, b: Noise<F>) -> bool
    decreases a,
{
    match (a, b) {
        (Noise::Const(x), Noise::Const(y)) => x == y,
        (Noise::Func(f), Noise::Func(g)) => forall|p: Pos|
            #[trigger] f.spec_eval(p) == g.spec_eval(p),
        (Noise::Simplex(s1), Noise::Simplex(s2)) => s1 == s2,
        (Noise::SimplexFast(s1), Noise::SimplexFast(s2)) => s1 == s2,
        (
            Noise::Octaves { func: f1, octaves: o1, amp_scale: a1, freq_scale: q1 },
            Noise::Octaves { func: f2, octaves: o2, amp_scale: a2, freq_scale: q2 },
        ) => o1 == o2 && a1 == a2 && q1 == q2 && equiv(*f1, *f2),
        (Noise::Add(l1, r1), Noise::Add(l2, r2)) => equiv(*l1, *l2) && equiv(*r1, *r2),
        (Noise::Sub(l1, r1), Noise::Sub(l2, r2)) => equiv(*l1, *l2) && equiv(*r1, *r2),
        (Noise::Mul(l1, r1), Noise::Mul(l2, r2)) => equiv(*l1, *l2) && equiv(*r1, *r2),
        (Noise::Div(l1, r1), Noise::Div(l2, r2)) => equiv(*l1, *l2) && equiv(*r1, *r2),
        (Noise::Pow(l1, r1), Noise::Pow(l2, r2)) => equiv(*l1, *l2) && equiv(*r1, *r2),
        (Noise::Rem(l1, r1), Noise::Rem(l2, r2)) => equiv(*l1, *l2) && equiv(*r1, *r2),
        (Noise::RemEuclid(l1, r1), Noise::RemEuclid(l2, r2)) => equiv(*l1, *l2) && equiv(
            *r1,
            *r2,
        ),
        (Noise::SignedPow(l1, r1), Noise::SignedPow(l2, r2)) => equiv(*l1, *l2) && equiv(
            *r1,
            *r2,
        ),
        (Noise::Floor(v1), Noise::Floor(v2)) => equiv(*v1, *v2),
        (Noise::Ceil(v1), Noise::Ceil(v2)) => equiv(*v1, *v2),
        (Noise::Abs(v1), Noise::Abs(v2)) => equiv(*v1, *v2),
        (Noise::Min(l1, r1), Noise::Min(l2, r2)) => equiv(*l1, *l2) && equiv(*r1, *r2),
        (Noise::Max(l1, r1), Noise::Max(l2, r2)) => equiv(*l1, *l2) && equiv(*r1, *r2),
        (
            Noise::Clamp { func: f1, min: lo1, max: hi1 },
            Noise::Clamp { func: f2, min: lo2, max: hi2 },
        ) => lo1 == lo2 && hi1 == hi2 && equiv(*f1, *f2),
        (Noise::ToUnsignedUnit(v1), Noise::ToUnsignedUnit(v2)) => equiv(*v1, *v2),
        (Noise::ToSignedUnit(v1), Noise::ToSignedUnit(v2)) => equiv(*v1, *v2),
        (Noise::CoordTranslate(f1, o1), Noise::CoordTranslate(f2, o2)) => o1 == o2 && equiv(
            *f1,
            *f2,
        ),
        (Noise::CoordScale(f1, s1), Noise::CoordScale(f2, s2)) => s1 == s2 && equiv(*f1, *f2),
        _ => false,
    }
}

impl<F: NoiseFunc> Clone for Noise<F> {
    /// Deep copy: children are copied recursively and callback leaves are
    /// duplicated through their own `duplicate`, so the copy is structurally
    /// equivalent to the original and owns no part of it.
    fn clone(&self) -> (r: Self)
        ensures
            equiv(r, *self),
        decreases self,
    {
        match self {
            Noise::Const(v) => Noise::Const(*v),
            Noise::Func(f) => Noise::Func(f.duplicate()),
            Noise::Simplex(seed) => Noise::Simplex(*seed),
            Noise::SimplexFast(seed) => Noise::SimplexFast(*seed),
            Noise::Octaves { func, octaves, amp_scale, freq_scale } => Noise::Octaves {
                func: Box::new((&**func).clone()),
                octaves: *octaves,
                amp_scale: *amp_scale,
                freq_scale: *freq_scale,
            },
            Noise::Add(l, r) => Noise::Add(
                Box::new((&**l).clone()),
                Box::new((&**r).clone()),
            ),
            Noise::Sub(l, r) => Noise::Sub(
                Box::new((&**l).clone()),
                Box::new((&**r).clone()),
            ),
            Noise::Mul(l, r) => Noise::Mul(
                Box::new((&**l).clone()),
                Box::new((&**r).clone()),
            ),
            Noise::Div(l, r) => Noise::Div(
                Box::new((&**l).clone()),
                Box::new((&**r).clone()),
            ),
            Noise::Pow(l, r) => Noise::Pow(
                Box::new((&**l).clone()),
                Box::new((&**r).clone()),
            ),
            Noise::Rem(l, r) => Noise::Rem(
                Box::new((&**l).clone()),
                Box::new((&**r).clone()),
            ),
            Noise::RemEuclid(l, r) => Noise::RemEuclid(
                Box::new((&**l).clone()),
                Box::new((&**r).clone()),
            ),
            Noise::SignedPow(l, r) => Noise::SignedPow(
                Box::new((&**l).clone()),
                Box::new((&**r).clone()),
            ),
            Noise::Floor(v) => Noise::Floor(Box::new((&**v).clone())),
            Noise::Ceil(v) => Noise::Ceil(Box::new((&**v).clone())),
            Noise::Abs(v) => Noise::Abs(Box::new((&**v).clone())),
            Noise::Min(l, r) => Noise::Min(
                Box::new((&**l).clone()),
                Box::new((&**r).clone()),
            ),
            Noise::Max(l, r) => Noise::Max(
                Box::new((&**l).clone()),
                Box::new((&**r).clone()),
            ),
            Noise::Clamp { func, min, max } => Noise::Clamp {
                func: Box::new((&**func).clone()),
                min: *min,
                max: *max,
            },
            Noise::ToUnsignedUnit(v) => Noise::ToUnsignedUnit(Box::new((&**v).clone())),
            Noise::ToSignedUnit(v) => Noise::ToSignedUnit(Box::new((&**v).clone())),
            Noise::CoordTranslate(f, off) => Noise::CoordTranslate(
                Box::new((&**f).clone()),
                *off,
            ),
            Noise::CoordScale(f, factor) => Noise::CoordScale(
                Box::new((&**f).clone()),
                *factor,
            ),
        }
    }
}

impl<F: NoiseFunc> Noise<F> {
    /// A constant leaf. A bare number combined with a tree is first
    /// promoted through this constructor.
    pub fn constant(value: Scalar) -> (r: Self)
        ensures
            r == Noise::<F>::Const(value),
    {
        Noise::Const(value)
    }

    /// A seeded noise leaf in the smooth sampling mode.
    pub fn simplex(seed: i64) -> (r: Self)
        ensures
            r == Noise::<F>::Simplex(seed),
    {
        Noise::Simplex(seed)
    }

    /// A seeded noise leaf in the fast sampling mode.
    pub fn simplex_fast(seed: i64) -> (r: Self)
        ensures
            r == Noise::<F>::SimplexFast(seed),
    {
        Noise::SimplexFast(seed)
    }

    /// A callback leaf.
    pub fn func(callback: F) -> (r: Self)
        ensures
            r == Noise::<F>::Func(callback),
    {
        Noise::Func(callback)
    }

    /// A multi-octave node over this tree. An omitted amplitude factor
    /// defaults to one half, an omitted frequency factor to two.
    pub fn octaves(self, octaves: usize, amp_scale: Option<Scalar>, freq_scale: Option<Scalar>) -> (r: Self)
        ensures
            r matches Noise::Octaves { func, octaves: o, amp_scale: a, freq_scale: q } && *func
                == self && o == octaves && a == (match amp_scale {
                Some(v) => v,
                None => Scalar { bits: 32768 },
            }) && q == (match freq_scale {
                Some(v) => v,
                None => Scalar { bits: 131072 },
            }),
    {
        let amp_scale = match amp_scale {
            Some(v) => v,
            None => Scalar { bits: 32768 },
        };
        let freq_scale = match freq_scale {
            Some(v) => v,
            None => Scalar { bits: 131072 },
        };
        Noise::Octaves { func: Box::new(self), octaves, amp_scale, freq_scale }
    }

    /// The sum of this tree and `rhs`.
    pub fn add(self, rhs: Self) -> (r: Self)
        ensures
            r matches Noise::Add(l, rr) && *l == self && *rr == rhs,
    {
        Noise::Add(Box::new(self), Box::new(rhs))
    }

    /// The difference of this tree and `rhs`.
    pub fn sub(self, rhs: Self) -> (r: Self)
        ensures
            r matches Noise::Sub(l, rr) && *l == self && *rr == rhs,
    {
        Noise::Sub(Box::new(self), Box::new(rhs))
    }

    /// The product of this tree and `rhs`.
    pub fn mul(self, rhs: Self) -> (r: Self)
        ensures
            r matches Noise::Mul(l, rr) && *l == self && *rr == rhs,
    {
        Noise::Mul(Box::new(self), Box::new(rhs))
    }

    /// The quotient of this tree and `rhs`.
    pub fn div(self, rhs: Self) -> (r: Self)
        ensures
            r matches Noise::Div(l, rr) && *l == self && *rr == rhs,
    {
        Noise::Div(Box::new(self), Box::new(rhs))
    }

    /// This tree raised to the power `rhs`.
    pub fn pow(self, rhs: Self) -> (r: Self)
        ensures
            r matches Noise::Pow(l, rr) && *l == self && *rr == rhs,
    {
        Noise::Pow(Box::new(self), Box::new(rhs))
    }

    /// The truncated remainder of this tree by `rhs`.
    pub fn rem(self, rhs: Self) -> (r: Self)
        ensures
            r matches Noise::Rem(l, rr) && *l == self && *rr == rhs,
    {
        Noise::Rem(Box::new(self), Box::new(rhs))
    }

    /// The Euclidean (non-negative) remainder of this tree by `rhs`.
    pub fn rem_euclid(self, rhs: Self) -> (r: Self)
        ensures
            r matches Noise::RemEuclid(l, rr) && *l == self && *rr == rhs,
    {
        Noise::RemEuclid(Box::new(self), Box::new(rhs))
    }

    /// This tree raised to the power `rhs`, keeping this tree's sign.
    pub fn signed_pow(self, rhs: Self) -> (r: Self)
        ensures
            r matches Noise::SignedPow(l, rr) && *l == self && *rr == rhs,
    {
        Noise::SignedPow(Box::new(self), Box::new(rhs))
    }

    /// The smaller of this tree and `rhs`.
    pub fn min(self, rhs: Self) -> (r: Self)
        ensures
            r matches Noise::Min(l, rr) && *l == self && *rr == rhs,
    {
        Noise::Min(Box::new(self), Box::new(rhs))
    }

    /// The larger of this tree and `rhs`.
    pub fn max(self, rhs: Self) -> (r: Self)
        ensures
            r matches Noise::Max(l, rr) && *l == self && *rr == rhs,
    {
        Noise::Max(Box::new(self), Box::new(rhs))
    }

    /// The floor of this tree.
    pub fn floor(self) -> (r: Self)
        ensures
            r matches Noise::Floor(v) && *v == self,
    {
        Noise::Floor(Box::new(self))
    }

    /// The ceiling of this tree.
    pub fn ceil(self) -> (r: Self)
        ensures
            r matches Noise::Ceil(v) && *v == self,
    {
        Noise::Ceil(Box::new(self))
    }

    /// The magnitude of this tree.
    pub fn abs(self) -> (r: Self)
        ensures
            r matches Noise::Abs(v) && *v == self,
    {
        Noise::Abs(Box::new(self))
    }

    /// This tree clamped to `[min, max]`.
    pub fn clamp(self, min: Scalar, max: Scalar) -> (r: Self)
        ensures
            r matches Noise::Clamp { func, min: lo, max: hi } && *func == self && lo == min && hi
                == max,
    {
        Noise::Clamp { func: Box::new(self), min, max }
    }

    /// This tree mapped from `[0, 1]` onto `[-1, 1]`.
    pub fn to_signed_unit(self) -> (r: Self)
        ensures
            r matches Noise::ToSignedUnit(v) && *v == self,
    {
        Noise::ToSignedUnit(Box::new(self))
    }

    /// This tree mapped from `[-1, 1]` onto `[0, 1]`.
    pub fn to_unsigned_unit(self) -> (r: Self)
        ensures
            r matches Noise::ToUnsignedUnit(v) && *v == self,
    {
        Noise::ToUnsignedUnit(Box::new(self))
    }

    /// This tree evaluated at the coordinate moved by `(x, y)`; an omitted
    /// `y` defaults to `x`, a uniform translation.
    pub fn translate(self, x: Scalar, y: Option<Scalar>) -> (r: Self)
        ensures
            r matches Noise::CoordTranslate(f, off) && *f == self && off == (Pos {
                x,
                y: match y {
                    Some(v) => v,
                    None => x,
                },
            }),
    {
        let yy = match y {
            Some(v) => v,
            None => x,
        };
        Noise::CoordTranslate(Box::new(self), Pos { x, y: yy })
    }

    /// This tree evaluated at the coordinate scaled by `(x, y)`; an
    /// omitted `y` defaults to `x`, a uniform scaling.
    pub fn scale(self, x: Scalar, y: Option<Scalar>) -> (r: Self)
        ensures
            r matches Noise::CoordScale(f, factor) && *f == self && factor == (Pos {
                x,
                y: match y {
                    Some(v) => v,
                    None => x,
                },
            }),
    {
        let yy = match y {
            Some(v) => v,
            None => x,
        };
        Noise::CoordScale(Box::new(self), Pos { x, y: yy })
    }
}

} // verus!
