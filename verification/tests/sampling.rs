use noisebench::sample::{grid_triangles, sample, NoiseOutput};
use noisebench::scalar::{Scalar, UNIT};
use noisebench::tree::{ConstFunc, Noise, NoiseEngine, NoiseFunc, Pos, ZeroEngine};

fn s(bits: i64) -> Scalar {
    Scalar::from_raw(bits)
}

fn whole(v: i64) -> Scalar {
    Scalar::from_int(v)
}

/// A position-dependent callback: the sum of the two coordinates.
#[derive(Clone, Copy)]
struct AddXY;

impl NoiseFunc for AddXY {
    fn spec_eval(&self, _pos: Pos) -> Scalar {
        Scalar::from_raw(0)
    }

    fn eval(&self, pos: Pos) -> Scalar {
        pos.x.add(pos.y)
    }

    fn duplicate(&self) -> Self {
        AddXY
    }
}

/// An engine backed by seeded 2D simplex noise, converting between the
/// library's fixed-point scalars and the backend's floats at the boundary.
struct SimplexEngine;

impl NoiseEngine for SimplexEngine {
    fn smooth_spec(&self, _seed: i64, _pos: Pos) -> Scalar {
        Scalar::from_raw(0)
    }

    fn fast_spec(&self, _seed: i64, _pos: Pos) -> Scalar {
        Scalar::from_raw(0)
    }

    fn smooth(&self, seed: i64, pos: Pos) -> Scalar {
        let x = pos.x.bits as f64 / UNIT as f64;
        let y = pos.y.bits as f64 / UNIT as f64;
        let v = opensimplex2::smooth::noise2(seed, x, y);
        Scalar::from_raw((v as f64 * UNIT as f64) as i64)
    }

    fn fast(&self, seed: i64, pos: Pos) -> Scalar {
        let x = pos.x.bits as f64 / UNIT as f64;
        let y = pos.y.bits as f64 / UNIT as f64;
        let v = opensimplex2::fast::noise2(seed, x, y);
        Scalar::from_raw((v as f64 * UNIT as f64) as i64)
    }
}

#[test]
fn sample_has_the_right_shape_and_corners() {
    let e = ZeroEngine {};
    let t = Noise::<AddXY>::func(AddXY);
    let out = sample(&t, 4, &e);
    assert_eq!(out.diameter, 4);
    assert_eq!(out.samples.len(), 16);
    // Cell (0, 0) is the tree at (0, 0); cell (d-1, d-1) the tree at (1, 1).
    assert_eq!(out.at(0, 0), t.eval(Pos::new(s(0), s(0)), &e));
    assert_eq!(out.at(3, 3), t.eval(Pos::new(whole(1), whole(1)), &e));
    assert_eq!(out.at(0, 0), s(0));
    assert_eq!(out.at(3, 3), whole(2));
    // An interior cell: (1, 2) maps to (1/3, 2/3).
    let third = Scalar::from_ratio(1, 3);
    let two_thirds = Scalar::from_ratio(2, 3);
    assert_eq!(out.at(1, 2), third.add(two_thirds));
}

#[test]
fn sample_of_one_cell_uses_divisor_one() {
    let e = ZeroEngine {};
    let t = Noise::<AddXY>::func(AddXY);
    let out = sample(&t, 1, &e);
    assert_eq!(out.samples.len(), 1);
    assert_eq!(out.at(0, 0), t.eval(Pos::new(s(0), s(0)), &e));
}

#[test]
fn constant_half_fills_the_whole_buffer() {
    let e = ZeroEngine {};
    let t = Noise::<ConstFunc>::constant(s(UNIT / 2));
    for d in [1usize, 2, 7, 16] {
        let out = sample(&t, d, &e);
        assert_eq!(out.samples.len(), d * d);
        for v in out.samples.iter() {
            assert_eq!(*v, s(UNIT / 2));
        }
    }
}

#[test]
fn min_and_max_of_constants_fill_uniformly() {
    let e = ZeroEngine {};
    let one_min = Noise::<ConstFunc>::constant(whole(1)).min(Noise::constant(whole(2)));
    let out = sample(&one_min, 8, &e);
    for v in out.samples.iter() {
        assert_eq!(*v, whole(1));
    }
    let two_max = Noise::<ConstFunc>::constant(whole(1)).max(Noise::constant(whole(2)));
    let out = sample(&two_max, 8, &e);
    for v in out.samples.iter() {
        assert_eq!(*v, whole(2));
    }
}

#[test]
fn sampling_twice_is_deterministic() {
    let e = ZeroEngine {};
    let t = Noise::<AddXY>::func(AddXY).octaves(3, None, None).to_unsigned_unit();
    let a = sample(&t, 9, &e);
    let b = sample(&t, 9, &e);
    assert_eq!(a.samples, b.samples);
}

#[test]
fn sampling_real_noise_is_deterministic() {
    let e = SimplexEngine;
    let t = Noise::<ConstFunc>::simplex(7).add(Noise::simplex_fast(7));
    let a = sample(&t, 8, &e);
    let b = sample(&t, 8, &e);
    assert_eq!(a.samples, b.samples);
    // Both backends stay near the unit interval, so the sum stays small.
    for v in a.samples.iter() {
        assert!(v.bits.abs() <= 3 * UNIT);
    }
    // The two modes are distinct fields: somewhere they disagree.
    let smooth_only = sample(&Noise::<ConstFunc>::simplex(7), 8, &e);
    let fast_only = sample(&Noise::<ConstFunc>::simplex_fast(7), 8, &e);
    assert_ne!(smooth_only.samples, fast_only.samples);
}

#[test]
fn new_buffer_is_zero_filled() {
    let out = NoiseOutput::new(5);
    assert_eq!(out.diameter, 5);
    assert_eq!(out.samples.len(), 25);
    for v in out.samples.iter() {
        assert_eq!(*v, s(0));
    }
}

#[test]
fn rows_read_back_row_major() {
    let e = ZeroEngine {};
    let t = Noise::<AddXY>::func(AddXY);
    let out = sample(&t, 3, &e);
    let row = out.row(2);
    assert_eq!(row.len(), 3);
    for x in 0..3usize {
        assert_eq!(row[x], out.at(x, 2));
    }
    let all = out.rows();
    assert_eq!(all.len(), 3);
    for y in 0..3usize {
        assert_eq!(all[y], out.row(y));
    }
}

#[test]
fn intensities_map_to_unsigned_unit() {
    let e = ZeroEngine {};
    let t = Noise::<ConstFunc>::constant(s(-UNIT / 2));
    let out = sample(&t, 4, &e);
    let img = out.intensities();
    assert_eq!(img.len(), 16);
    for v in img.iter() {
        assert_eq!(*v, s(UNIT / 4));
    }
}

#[test]
fn heights_scale_samples() {
    let e = ZeroEngine {};
    let t = Noise::<ConstFunc>::constant(s(UNIT / 2));
    let out = sample(&t, 4, &e);
    assert_eq!(out.height_at(1, 1, whole(6)), whole(3));
    let (n, ea, so, w) = out.neighbor_heights(0, 0, whole(6));
    // At the corner the north and west neighbors clamp to the cell itself.
    assert_eq!(n, whole(3));
    assert_eq!(w, whole(3));
    assert_eq!(ea, whole(3));
    assert_eq!(so, whole(3));
}

#[test]
fn triangles_cover_each_cell_twice() {
    let tri = grid_triangles(3);
    assert_eq!(tri.len(), 24);
    // The first cell's two triangles, in issue order.
    assert_eq!(
        &tri[0..6],
        &[(0, 0), (0, 1), (1, 0), (1, 0), (0, 1), (1, 1)]
    );
    // The last cell of a 3x3 grid is (1, 1).
    assert_eq!(tri[23], (2, 2));
    let tiny = grid_triangles(1);
    assert_eq!(tiny.len(), 0);
}
