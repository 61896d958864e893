use ode_core::types::{NormError, OdeType, PNorm};

#[test]
fn pnorm() {}

#[test]
fn dof_is_stable_and_iteration_is_in_order() {
    let v: Vec<i64> = vec![10, -20, 30];
    assert_eq!(OdeType::dof(&v), 3);
    assert_eq!(OdeType::dof(&v), 3);

    let mut it = v.ode_iter();
    assert_eq!(it.next(), Some(10));
    assert_eq!(it.next(), Some(-20));
    assert_eq!(it.next(), Some(30));
    assert_eq!(it.next(), None);

    // A fresh iterator starts over, and iterating mutated nothing.
    let mut again = v.ode_iter();
    assert_eq!(again.next(), Some(10));
    assert_eq!(v, vec![10, -20, 30]);

    let t = (1i64, 2i64, 3i64, 4i64);
    assert_eq!(t.dof(), 4);
    let mut ti = t.ode_iter();
    let mut collected = Vec::new();
    while let Some(x) = ti.next() {
        collected.push(x);
    }
    assert_eq!(collected, vec![1, 2, 3, 4]);

    let s: i64 = 9;
    assert_eq!(s.dof(), 1);
    let mut si = s.ode_iter();
    assert_eq!(si.next(), Some(9));
    assert_eq!(si.next(), None);
}

#[test]
fn indexed_access_and_insert() {
    let mut v: Vec<i64> = vec![1, 2, 3];
    assert_eq!(OdeType::get(&v, 1), 2);
    OdeType::insert(&mut v, 1, -7);
    assert_eq!(v, vec![1, -7, 3]);

    let mut t = (1i64, 2i64);
    assert_eq!(t.get(0), 1);
    assert_eq!(t.get(1), 2);
    t.insert(0, 5);
    assert_eq!(t, (5, 2));

    let mut nine = (1i64, 2, 3, 4, 5, 6, 7, 8, 9);
    assert_eq!(nine.dof(), 9);
    assert_eq!(nine.get(8), 9);
    nine.insert(8, -9);
    assert_eq!(nine.get(8), -9);

    let mut s: i64 = 4;
    assert_eq!(OdeType::get(&s, 0), 4);
    OdeType::insert(&mut s, 0, 11);
    assert_eq!(s, 11);
}

#[test]
fn get_mut_borrows_a_component() {
    let mut v: Vec<i64> = vec![1, 2, 3];
    *OdeType::get_mut(&mut v, 2) = 30;
    assert_eq!(v, vec![1, 2, 30]);

    let mut t = (1i64, 2i64, 3i64);
    *t.get_mut(0) = -1;
    assert_eq!(t, (-1, 2, 3));

    let mut s: i64 = 5;
    *OdeType::get_mut(&mut s, 0) = 6;
    assert_eq!(s, 6);
}

#[test]
fn set_zero_gives_zero_norm_for_every_positive_power() {
    let mut v: Vec<i64> = vec![3, -4, 5];
    v.set_zero();
    assert_eq!(v, vec![0, 0, 0]);
    for p in 1..6usize {
        assert_eq!(v.pnorm(PNorm::P(p)), Ok(0));
    }

    let mut t = (3i64, -4i64, 1i64);
    t.set_zero();
    assert_eq!(t, (0, 0, 0));
    assert_eq!(t.pnorm(PNorm::P(1)), Ok(0));
    assert_eq!(t.pnorm(PNorm::P(7)), Ok(0));

    let mut s: i64 = 42;
    s.set_zero();
    assert_eq!(s, 0);
    assert_eq!(s.pnorm(PNorm::P(2)), Ok(0));
}

#[test]
fn pnorm_is_the_sum_of_absolute_powers() {
    // Two components 3 and 4: the sum-of-absolute-powers convention
    // yields 9 + 16 = 25 for exponent 2 (no final square root).
    let t = (3i64, 4i64);
    assert_eq!(t.pnorm(PNorm::P(2)), Ok(25));
    assert_eq!(t.pnorm(PNorm::P(1)), Ok(7));
    assert_eq!(t.pnorm(PNorm::P(3)), Ok(27 + 64));

    let v: Vec<i64> = vec![3, 4];
    assert_eq!(v.pnorm(PNorm::P(2)), Ok(25));

    let s: i64 = -3;
    assert_eq!(s.pnorm(PNorm::P(2)), Ok(9));

    // The default norm selector is P(2).
    assert_eq!(t.pnorm(PNorm::default()), Ok(25));
}

#[test]
fn infinity_norms_use_magnitudes() {
    let t = (-3i64, 4i64, -1i64);
    // Maximum magnitude.
    assert_eq!(t.pnorm(PNorm::InfPos), Ok(4));
    // Minimum magnitude: the fold is seeded with the first magnitude,
    // not with zero, so the result is 1 and not the degenerate 0.
    assert_eq!(t.pnorm(PNorm::InfNeg), Ok(1));

    let v: Vec<i64> = vec![-3, 4, -1];
    assert_eq!(v.pnorm(PNorm::InfPos), Ok(4));
    assert_eq!(v.pnorm(PNorm::InfNeg), Ok(1));

    // An empty state yields the identity for every variant.
    let e: Vec<i64> = Vec::new();
    assert_eq!(e.pnorm(PNorm::InfPos), Ok(0));
    assert_eq!(e.pnorm(PNorm::InfNeg), Ok(0));
    assert_eq!(e.pnorm(PNorm::P(3)), Ok(0));
}

#[test]
fn pnorm_rejects_a_zero_exponent() {
    let t = (3i64, 4i64);
    assert_eq!(t.pnorm(PNorm::P(0)), Err(NormError::InvalidParam));
    let e: Vec<i64> = Vec::new();
    assert_eq!(e.pnorm(PNorm::P(0)), Err(NormError::InvalidParam));
}

#[test]
fn pnorm_reports_overflow() {
    let big = (i64::MAX, i64::MAX);
    assert_eq!(big.pnorm(PNorm::P(2)), Err(NormError::Overflow));
    // The magnitude of i64::MIN itself does not fit the component type.
    let s: i64 = i64::MIN;
    assert_eq!(s.pnorm(PNorm::InfPos), Err(NormError::Overflow));
    assert_eq!(s.pnorm(PNorm::InfNeg), Err(NormError::Overflow));
    assert_eq!(s.pnorm(PNorm::P(1)), Err(NormError::Overflow));
    // A large magnitude that does fit is returned exactly.
    let m: i64 = i64::MIN + 1;
    assert_eq!(m.pnorm(PNorm::InfPos), Ok(i64::MAX));
    assert_eq!(m.pnorm(PNorm::P(1)), Ok(i64::MAX));
}

#[test]
fn tuple_arities_two_through_nine() {
    assert_eq!((1i64, 1i64).dof(), 2);
    assert_eq!((1i64, 1, 1).dof(), 3);
    assert_eq!((1i64, 1, 1, 1).dof(), 4);
    assert_eq!((1i64, 1, 1, 1, 1).dof(), 5);
    assert_eq!((1i64, 1, 1, 1, 1, 1).dof(), 6);
    assert_eq!((1i64, 1, 1, 1, 1, 1, 1).dof(), 7);
    assert_eq!((1i64, 1, 1, 1, 1, 1, 1, 1).dof(), 8);
    assert_eq!((1i64, 1, 1, 1, 1, 1, 1, 1, 1).dof(), 9);
    assert_eq!((1i64, 1, 1, 1, 1, 1, 1, 1, 1).pnorm(PNorm::P(2)), Ok(9));
    assert_eq!((2i64, -2, 2, -2, 2, -2, 2).pnorm(PNorm::P(2)), Ok(28));
}
