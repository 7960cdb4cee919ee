use paddle_bounce::rational::Frac;

#[test]
fn add_reduces_to_lowest_terms() {
    let a = Frac { n: 1, d: 3 };
    let b = Frac { n: 1, d: 6 };
    let r = a.try_add(&b).unwrap();
    assert_eq!(r.n, 1);
    assert_eq!(r.d, 2);
}

#[test]
fn sub_crosses_zero() {
    let a = Frac { n: 1, d: 4 };
    let b = Frac { n: 3, d: 4 };
    let r = a.try_sub(&b).unwrap();
    assert_eq!(r.n, -1);
    assert_eq!(r.d, 2);
}

#[test]
fn mul_is_exact() {
    let a = Frac { n: 500, d: 1 };
    let b = Frac { n: 1, d: 60 };
    let r = a.try_mul(&b).unwrap();
    assert_eq!(r.n, 25);
    assert_eq!(r.d, 3);
}

#[test]
fn overflowing_product_is_refused() {
    let a = Frac { n: 2147483648, d: 1 };
    let r = a.try_mul(&a);
    assert!(r.is_none());
}

#[test]
fn neg_flips_sign_only() {
    let a = Frac { n: 7, d: 9 };
    let r = a.neg();
    assert_eq!(r.n, -7);
    assert_eq!(r.d, 9);
}

#[test]
fn comparisons_use_values_not_parts() {
    let a = Frac { n: 2, d: 6 };
    let b = Frac { n: 1, d: 3 };
    assert!(a.eq_frac(&b));
    assert!(!a.lt(&b));
    assert!(a.le(&b));
    assert!(Frac { n: -1, d: 2 }.lt(&Frac { n: 1, d: 3 }));
    assert!(Frac { n: 5, d: 3 }.eq_int(0) == false);
    assert!(Frac { n: 6, d: 3 }.eq_int(2));
}

#[test]
fn clamp_applies_after_the_fact() {
    let a = Frac { n: 865, d: 3 };
    let r = a.clamp_int(-252, 252);
    assert_eq!(r.n, 252);
    assert_eq!(r.d, 1);
    let inside = Frac { n: 100, d: 3 };
    let kept = inside.clamp_int(-252, 252);
    assert!(kept.eq_frac(&inside));
}

#[test]
fn from_int_and_signs() {
    let z = Frac::from_int(0);
    assert!(!z.is_neg() && !z.is_pos());
    assert!(Frac::from_int(-4).is_neg());
    assert!(Frac::from_int(4).is_pos());
}
