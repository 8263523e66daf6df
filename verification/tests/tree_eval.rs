use noisebench::scalar::{Scalar, UNIT};
use noisebench::tree::{ConstFunc, Noise, NoiseEngine, NoiseFunc, Pos, ZeroEngine};

fn s(bits: i64) -> Scalar {
    Scalar::from_raw(bits)
}

fn whole(v: i64) -> Scalar {
    Scalar::from_int(v)
}

fn at(x: Scalar, y: Scalar) -> Pos {
    Pos::new(x, y)
}

/// A position-dependent callback: the sum of the two coordinates.
#[derive(Clone, Copy)]
struct AddXY;

impl NoiseFunc for AddXY {
    fn spec_eval(&self, _pos: Pos) -> Scalar {
        Scalar::from_raw(0)
    }

    fn eval(&self, pos: Pos) -> Scalar {
        pos.x.add(pos.y)
    }

    fn duplicate(&self) -> Self {
        AddXY
    }
}

type Tree = Noise<AddXY>;
type CTree = Noise<ConstFunc>;

#[test]
fn constant_leaf_evaluates_to_itself() {
    let t = CTree::constant(s(UNIT / 2));
    assert_eq!(t.eval(at(whole(3), whole(7)), &ZeroEngine {}), s(UNIT / 2));
}

#[test]
fn callback_leaf_uses_the_coordinate() {
    let t = Tree::func(AddXY);
    assert_eq!(t.eval(at(whole(3), whole(4)), &ZeroEngine {}), whole(7));
}

#[test]
fn zero_engine_noise_is_zero() {
    let t = CTree::simplex(42);
    assert_eq!(t.eval(at(whole(1), whole(2)), &ZeroEngine {}), s(0));
    let t = CTree::simplex_fast(42);
    assert_eq!(t.eval(at(whole(1), whole(2)), &ZeroEngine {}), s(0));
}

#[test]
fn binary_operators_combine_children() {
    let e = ZeroEngine {};
    let p = at(whole(0), whole(0));
    let two = || CTree::constant(whole(2));
    let three = || CTree::constant(whole(3));
    assert_eq!(two().add(three()).eval(p, &e), whole(5));
    assert_eq!(two().sub(three()).eval(p, &e), whole(-1));
    assert_eq!(two().mul(three()).eval(p, &e), whole(6));
    assert_eq!(three().div(two()).eval(p, &e), s(3 * UNIT / 2));
    assert_eq!(two().pow(three()).eval(p, &e), whole(8));
    assert_eq!(three().rem(two()).eval(p, &e), whole(1));
    assert_eq!(
        CTree::constant(whole(-7)).rem_euclid(two()).eval(p, &e),
        whole(1)
    );
    assert_eq!(
        CTree::constant(whole(-2)).signed_pow(two()).eval(p, &e),
        whole(-4)
    );
    assert_eq!(two().min(three()).eval(p, &e), whole(2));
    assert_eq!(two().max(three()).eval(p, &e), whole(3));
}

#[test]
fn unary_operators_apply_to_the_child() {
    let e = ZeroEngine {};
    let p = at(whole(0), whole(0));
    let half3 = || CTree::constant(s(3 * UNIT / 2));
    assert_eq!(half3().floor().eval(p, &e), whole(1));
    assert_eq!(half3().ceil().eval(p, &e), whole(2));
    assert_eq!(CTree::constant(whole(-3)).abs().eval(p, &e), whole(3));
    assert_eq!(
        CTree::constant(whole(7)).clamp(whole(0), whole(3)).eval(p, &e),
        whole(3)
    );
    assert_eq!(
        CTree::constant(s(UNIT / 4)).to_signed_unit().eval(p, &e),
        s(-UNIT / 2)
    );
    assert_eq!(
        CTree::constant(s(-UNIT / 2)).to_unsigned_unit().eval(p, &e),
        s(UNIT / 4)
    );
}

#[test]
fn clone_preserves_evaluation() {
    let t = Tree::func(AddXY)
        .mul(Tree::constant(whole(2)))
        .translate(whole(1), Some(whole(2)))
        .octaves(3, None, None);
    let c = t.clone();
    let e = ZeroEngine {};
    for (x, y) in [(0i64, 0i64), (1, 2), (-3, 5), (7, -11)] {
        let p = at(whole(x), whole(y));
        assert_eq!(c.eval(p, &e), t.eval(p, &e));
    }
}

#[test]
fn translate_moves_the_coordinate() {
    let e = ZeroEngine {};
    let t = Tree::func(AddXY).translate(whole(1), Some(whole(2)));
    let direct = Tree::func(AddXY);
    assert_eq!(
        t.eval(at(whole(3), whole(4)), &e),
        direct.eval(at(whole(4), whole(6)), &e)
    );
    // An omitted second component makes the translation uniform.
    let u = Tree::func(AddXY).translate(whole(5), None);
    assert_eq!(
        u.eval(at(whole(0), whole(1)), &e),
        direct.eval(at(whole(5), whole(6)), &e)
    );
}

#[test]
fn scale_multiplies_the_coordinate() {
    let e = ZeroEngine {};
    let t = Tree::func(AddXY).scale(whole(2), Some(whole(3)));
    let direct = Tree::func(AddXY);
    assert_eq!(
        t.eval(at(whole(3), whole(4)), &e),
        direct.eval(at(whole(6), whole(12)), &e)
    );
    let u = Tree::func(AddXY).scale(whole(2), None);
    assert_eq!(
        u.eval(at(whole(3), whole(4)), &e),
        direct.eval(at(whole(6), whole(8)), &e)
    );
}

#[test]
fn unit_maps_round_trip_on_trees() {
    let e = ZeroEngine {};
    let t = Tree::func(AddXY);
    let round = Tree::func(AddXY).to_signed_unit().to_unsigned_unit();
    for (x, y) in [(0i64, 0i64), (1, 2), (-3, 5)] {
        let p = at(whole(x), whole(y));
        assert_eq!(round.eval(p, &e), t.eval(p, &e));
    }
}

#[test]
fn octaves_of_a_constant_sum_a_geometric_series() {
    let e = ZeroEngine {};
    // 3 * (1 + 1/2 + 1/4 + 1/8) == 5.625, at every coordinate.
    let t = CTree::constant(whole(3)).octaves(4, None, None);
    let expected = s(5 * UNIT + 5 * UNIT / 8);
    assert_eq!(t.eval(at(whole(0), whole(0)), &e), expected);
    assert_eq!(t.eval(at(whole(17), whole(-4)), &e), expected);
    // Whole-number parameters: 2 * (1 + 3 + 9) == 26.
    let t = CTree::constant(whole(2)).octaves(3, Some(whole(3)), Some(whole(7)));
    assert_eq!(t.eval(at(whole(9), whole(9)), &e), whole(26));
}

#[test]
fn octaves_scale_amplitude_and_frequency() {
    let e = ZeroEngine {};
    // Two octaves over x + y: 1 * f(p) + 1/2 * f(2 p).
    let t = Tree::func(AddXY).octaves(2, None, None);
    let got = t.eval(at(whole(1), whole(0)), &e);
    assert_eq!(got, whole(2));
    // Zero octaves yield zero.
    let z = Tree::func(AddXY).octaves(0, None, None);
    assert_eq!(z.eval(at(whole(5), whole(5)), &e), s(0));
}

#[test]
fn octave_defaults_are_half_and_two() {
    let e = ZeroEngine {};
    let defaulted = Tree::func(AddXY).octaves(3, None, None);
    let explicit = Tree::func(AddXY).octaves(3, Some(s(UNIT / 2)), Some(whole(2)));
    for (x, y) in [(1i64, 0i64), (2, 3)] {
        let p = at(whole(x), whole(y));
        assert_eq!(defaulted.eval(p, &e), explicit.eval(p, &e));
    }
}

#[test]
fn const_func_callback_is_fixed() {
    let t = Noise::<ConstFunc>::func(ConstFunc { value: whole(9) });
    assert_eq!(t.eval(at(whole(1), whole(2)), &ZeroEngine {}), whole(9));
}
