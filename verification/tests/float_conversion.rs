//! The operators seen through floating-point values: a float is scaled,
//! clamped and rounded outside the library and saturated by it.

use q15::Q15;

fn from_float(f: f32) -> Q15 {
    let mut f = f * 32768.0;
    if f > 32767.0 {
        f = 32767.0;
    } else if f < -32768.0 {
        f = -32768.0;
    }
    Q15::sat(f.round() as i32)
}

fn to_float(q: Q15) -> f32 {
    f32::from(q.raw()) / 32768.0
}

fn normalize(x: f32) -> f32 {
    to_float(from_float(x))
}

fn close(x: Q15, mut y: f32) -> bool {
    if y <= -1.0 {
        y = -1.0;
    } else if y >= 0.999_969_5 {
        y = 0.999_969_5;
    }
    (to_float(x) - y).abs() < to_float(Q15::ulp())
}

/// A fixed sequence of floats that covers [-1.0, 0.9999695) densely.
fn samples(n: u32, seed: u32) -> Vec<f32> {
    let mut state: u32 = seed;
    let mut out = Vec::new();
    for _ in 0..n {
        state = state.wrapping_mul(1_664_525).wrapping_add(1_013_904_223);
        let unit = (state >> 8) as f32 / 16_777_216.0;
        let x = -1.0 + unit * 1.999_969_5;
        out.push(if x >= 0.999_969_5 { 0.999_969_4 } else { x });
    }
    out
}

#[test]
fn mult_boundaries() {
    let a = from_float(1.0);
    let b = from_float(-1.0);

    assert_eq!(a * b, -a);
    assert_eq!(a * a, from_float(to_float(a) * to_float(a)));
    assert_eq!(b * b, a);
}

#[test]
fn neg_min() {
    let a = from_float(-1.0);
    let b = from_float(1.0);

    assert_eq!(-a, b);
}

#[test]
fn from_to_id() {
    for x in i16::MIN..=i16::MAX {
        let a = Q15::from_raw(x);
        assert_eq!(a, from_float(to_float(a)));
    }
}

#[test]
fn mult() {
    let xs = samples(2000, 1);
    let ys = samples(2000, 77);
    for (i, &a) in xs.iter().enumerate() {
        let b = ys[i];
        let qa = from_float(a);
        let qb = from_float(b);
        assert!(close(qa * qb, normalize(a) * normalize(b)), "{} * {}", a, b);
    }
}

#[test]
fn add() {
    let xs = samples(2000, 5);
    let ys = samples(2000, 123);
    for (i, &a) in xs.iter().enumerate() {
        let b = ys[i];
        let qa = from_float(a);
        let qb = from_float(b);
        assert!(close(qa + qb, normalize(a) + normalize(b)), "{} + {}", a, b);
    }
}

#[test]
fn mult_close_at_the_ends() {
    let ends = [-1.0f32, -0.999_969_5, -0.5, 0.0, 0.5, 0.999_969_4];
    for &a in ends.iter() {
        for &b in ends.iter() {
            let qa = from_float(a);
            let qb = from_float(b);
            assert!(close(qa * qb, normalize(a) * normalize(b)), "{} * {}", a, b);
            assert!(close(qa + qb, normalize(a) + normalize(b)), "{} + {}", a, b);
        }
    }
}

#[test]
fn half_times_half_is_quarter() {
    assert_eq!(from_float(0.5) * from_float(0.5), from_float(0.25));
    assert_eq!((from_float(0.5) * from_float(0.5)).raw(), 8192);
}

#[test]
fn two_saturates_to_max() {
    assert_eq!(from_float(2.0), from_float(1.0));
    assert_eq!(from_float(2.0).raw(), 32767);
    assert_eq!(from_float(1.0).raw(), 32767);
    assert_eq!(from_float(-2.0).raw(), -32768);
    assert_eq!(from_float(-1.0).raw(), -32768);
}

#[test]
fn from_float_rounds_to_nearest() {
    assert_eq!(from_float(0.0).raw(), 0);
    assert_eq!(from_float(0.5).raw(), 16384);
    assert_eq!(from_float(0.25).raw(), 8192);
    assert_eq!(from_float(-0.5).raw(), -16384);
    assert_eq!(from_float(1.0 / 32768.0).raw(), 1);
    assert_eq!(from_float(1.4 / 32768.0).raw(), 1);
    assert_eq!(from_float(1.6 / 32768.0).raw(), 2);
    assert_eq!(from_float(-1.6 / 32768.0).raw(), -2);
}

#[test]
fn to_float_is_raw_over_two_to_the_fifteen() {
    assert_eq!(to_float(Q15::from_raw(16384)), 0.5);
    assert_eq!(to_float(Q15::from_raw(-32768)), -1.0);
    assert_eq!(to_float(Q15::from_raw(32767)), 0.999_969_5);
    assert_eq!(to_float(Q15::ulp()), 1.0 / 32768.0);
}
