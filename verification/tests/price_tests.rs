use ticker::price::{is_nan_bits, lt_bits, max_bits, min_bits, px_max, px_min, NAN_BITS};

fn bits(xs: &[f64]) -> Vec<u64> {
    xs.iter().copied().map(f64::to_bits).collect()
}

#[test]
fn nan_seed_is_nan() {
    assert!(f64::from_bits(NAN_BITS).is_nan());
    assert!(is_nan_bits(NAN_BITS));
    assert!(!is_nan_bits(f64::to_bits(0.0)));
    assert!(!is_nan_bits(f64::to_bits(f64::INFINITY)));
    assert!(is_nan_bits(f64::to_bits(f64::NAN)));
}

#[test]
fn order_on_bits_matches_numeric_order() {
    let pairs = [
        (1.0, 2.0),
        (-2.0, -1.0),
        (-1.0, 1.0),
        (-1.0, 0.0),
        (0.0, 0.5),
        (-0.5, 1.5),
        (1.0e300, 1.1e300),
        (-1.1e-300, -1.0e-300),
    ];
    for (a, b) in pairs {
        assert!(lt_bits(f64::to_bits(a), f64::to_bits(b)), "{} < {}", a, b);
        assert!(!lt_bits(f64::to_bits(b), f64::to_bits(a)), "!({} < {})", b, a);
        assert!(!lt_bits(f64::to_bits(a), f64::to_bits(a)));
    }
}

#[test]
fn the_two_zero_encodings_are_equal() {
    let pz = f64::to_bits(0.0);
    let nz = f64::to_bits(-0.0);
    assert!(!lt_bits(pz, nz));
    assert!(!lt_bits(nz, pz));
}

#[test]
fn max_and_min_of_two_ignore_nan() {
    let n = f64::to_bits(f64::NAN);
    let x = f64::to_bits(2.0);
    let y = f64::to_bits(3.0);
    assert_eq!(max_bits(n, x), x);
    assert_eq!(max_bits(x, n), x);
    assert_eq!(max_bits(x, y), y);
    assert_eq!(min_bits(n, x), x);
    assert_eq!(min_bits(x, n), x);
    assert_eq!(min_bits(x, y), x);
}

#[test]
fn high_and_low_of_a_session() {
    let s = bits(&[3.0, 1.0, 2.0]);
    assert_eq!(f64::from_bits(px_max(&s)), 3.0);
    assert_eq!(f64::from_bits(px_min(&s)), 1.0);
}

#[test]
fn empty_series_folds_to_nan() {
    let s: Vec<u64> = vec![];
    assert!(f64::from_bits(px_max(&s)).is_nan());
    assert!(f64::from_bits(px_min(&s)).is_nan());
}

#[test]
fn nan_samples_inside_a_series_are_ignored() {
    let s = bits(&[f64::NAN, 2.0, f64::NAN, -5.0]);
    assert_eq!(f64::from_bits(px_max(&s)), 2.0);
    assert_eq!(f64::from_bits(px_min(&s)), -5.0);
}

#[test]
fn all_nan_series_folds_to_nan() {
    let s = bits(&[f64::NAN, f64::NAN]);
    assert!(f64::from_bits(px_max(&s)).is_nan());
    assert!(f64::from_bits(px_min(&s)).is_nan());
}

#[test]
fn folds_agree_with_float_folds() {
    let xs = [4.5, -2.25, 0.0, 17.75, 3.5, -0.0, 9.125];
    let s = bits(&xs);
    let fmax = xs.iter().copied().fold(f64::NAN, f64::max);
    let fmin = xs.iter().copied().fold(f64::NAN, f64::min);
    assert_eq!(f64::from_bits(px_max(&s)), fmax);
    assert_eq!(f64::from_bits(px_min(&s)), fmin);
}
