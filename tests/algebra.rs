use tock::matrix::{Mtx2, Mtx3};
use tock::quaternion::Qtx;
use tock::vector::{Vtx2, Vtx3};

#[test]
fn vtx2_componentwise_operators() {
    let a = Vtx2::build(1.0, 2.0);
    let b = Vtx2::build(3.0, 8.0);
    assert_eq!(a + b, Vtx2::build(4.0, 10.0));
    assert_eq!(a - b, Vtx2::build(-2.0, -6.0));
    assert_eq!(a * b, Vtx2::build(3.0, 16.0));
    assert_eq!(b / a, Vtx2::build(3.0, 4.0));
}

#[test]
fn vtx2_scalar_operators() {
    let a = Vtx2::build(1.0, -2.0);
    assert_eq!(a + 1.5, Vtx2::build(2.5, -0.5));
    assert_eq!(a - 1.0, Vtx2::build(0.0, -3.0));
    assert_eq!(a * 3.0, Vtx2::build(3.0, -6.0));
    assert_eq!(a / 4.0, Vtx2::build(0.25, -0.5));
}

#[test]
fn vtx2_scale_then_divide_gives_back_vector() {
    let v = Vtx2::build(0.1f64, -7.25);
    let w = (v * 3.0) / 3.0;
    assert!((w.x - v.x).abs() < 1e-12);
    assert!((w.y - v.y).abs() < 1e-12);
}

#[test]
fn vtx2_division_by_zero_is_not_finite() {
    let w = Vtx2::build(1.0f64, 0.0) / 0.0;
    assert!(w.x.is_infinite());
    assert!(w.y.is_nan());
}

#[test]
fn vtx3_operators() {
    let a = Vtx3::build(1, 2, 3);
    let b = Vtx3::build(4, 6, 9);
    assert_eq!(a + b, Vtx3::build(5, 8, 12));
    assert_eq!(b - a, Vtx3::build(3, 4, 6));
    assert_eq!(a * b, Vtx3::build(4, 12, 27));
    assert_eq!(b / a, Vtx3::build(4, 3, 3));
    assert_eq!(a + 1, Vtx3::build(2, 3, 4));
    assert_eq!(b - 1, Vtx3::build(3, 5, 8));
    assert_eq!(a * 2, Vtx3::build(2, 4, 6));
    assert_eq!(b / 2, Vtx3::build(2, 3, 4));
}

#[test]
fn vtx2_dot_and_cross() {
    let a = Vtx2::build(1.0, 2.0);
    let b = Vtx2::build(3.0, 4.0);
    assert_eq!(a.dot(b), 11.0);
    assert_eq!(a.cross(b), -2.0);
    assert_eq!(b.cross(a), 2.0);
}

#[test]
fn vtx3_dot_and_cross() {
    let x = Vtx3::build(1.0, 0.0, 0.0);
    let y = Vtx3::build(0.0, 1.0, 0.0);
    assert_eq!(x.cross(y), Vtx3::build(0.0, 0.0, 1.0));
    assert_eq!(y.cross(x), Vtx3::build(0.0, 0.0, -1.0));
    let a = Vtx3::build(1, 2, 3);
    let b = Vtx3::build(4, 5, 6);
    assert_eq!(a.dot(b), 32);
    assert_eq!(a.cross(b), Vtx3::build(-3, 6, -3));
}

#[test]
fn vtx3_projections_drop_one_coordinate() {
    let v = Vtx3::build(1.0, 2.0, 3.0);
    assert_eq!(v.xy(), Vtx2::build(1.0, 2.0));
    assert_eq!(v.xz(), Vtx2::build(1.0, 3.0));
    assert_eq!(v.yz(), Vtx2::build(2.0, 3.0));
}

#[test]
fn vtx2_pair_round_trip_keeps_bits() {
    for (x, y) in [(0.1f64, -0.0f64), (f64::MAX, f64::MIN_POSITIVE), (f64::INFINITY, 1e-300)] {
        let v: Vtx2<f64> = (x, y).into();
        assert_eq!((v.x, v.y), (x, y));
        let p: (f64, f64) = v.into();
        assert_eq!(p.0.to_bits(), x.to_bits());
        assert_eq!(p.1.to_bits(), y.to_bits());
        let back: Vtx2<f64> = p.into();
        assert_eq!(back.x.to_bits(), v.x.to_bits());
        assert_eq!(back.y.to_bits(), v.y.to_bits());
    }
}

#[test]
fn vtx2_nan_survives_round_trip() {
    let v = Vtx2::build(f64::NAN, 2.0);
    let p: (f64, f64) = v.into();
    assert_eq!(p.0.to_bits(), f64::NAN.to_bits());
    assert_eq!(p.1, 2.0);
}

#[test]
fn vtx3_triple_round_trip() {
    let v: Vtx3<f32> = (1.5f32, -0.0f32, 3.25f32).into();
    assert_eq!(v, Vtx3::build(1.5, -0.0, 3.25));
    let t: (f32, f32, f32) = v.into();
    assert_eq!(t.1.to_bits(), (-0.0f32).to_bits());
    assert_eq!(t, (1.5, -0.0, 3.25));
}

#[test]
fn mtx2_basis_and_rows() {
    let m = Mtx2::build(1, 2, 3, 4);
    assert_eq!(m.i(), Vtx2::build(1, 2));
    assert_eq!(m.j(), Vtx2::build(3, 4));
    assert_eq!(m.x(), Vtx2::build(1, 3));
    assert_eq!(m.y(), Vtx2::build(2, 4));
}

#[test]
fn mtx2_put_replaces_one_basis_or_row() {
    let m = Mtx2::build(1, 2, 3, 4);
    let v = Vtx2::build(8, 9);
    assert_eq!(m.put_i(v), Mtx2::build(8, 9, 3, 4));
    assert_eq!(m.put_j(v), Mtx2::build(1, 2, 8, 9));
    assert_eq!(m.put_x(v), Mtx2::build(8, 2, 9, 4));
    assert_eq!(m.put_y(v), Mtx2::build(1, 8, 3, 9));
}

#[test]
fn mtx2_det() {
    assert_eq!(Mtx2::build(2.0, 0.0, 0.0, 2.0).det(), 4.0);
    assert_eq!(Mtx2::build(1.0, 0.0, 0.0, 0.0).det(), 0.0);
    assert_eq!(Mtx2::build(1.0, 0.0, 0.0, 1.0).det(), 1.0);
    assert_eq!(Mtx2::build(1, 3, 2, 4).det(), -2);
}

#[test]
fn mtx2_apply() {
    let m = Mtx2::build(1, 3, 2, 4);
    assert_eq!(m.apply(Vtx2::build(1, 1)), Vtx2::build(3, 7));
    assert_eq!(m.apply(Vtx2::build(1, 0)), m.i());
    let ident = Mtx2::build(1.0, 0.0, 0.0, 1.0);
    assert_eq!(ident.apply(Vtx2::build(-2.5, 7.0)), Vtx2::build(-2.5, 7.0));
}

#[test]
fn mtx2_combine_is_standard_product() {
    let a = Mtx2::build(1, 3, 2, 4);
    let b = Mtx2::build(5, 7, 6, 8);
    assert_eq!(a.combine(b), Mtx2::build(19, 43, 22, 50));
    let ident = Mtx2::build(1, 0, 0, 1);
    assert_eq!(a.combine(ident), a);
    assert_eq!(ident.combine(a), a);
}

#[test]
fn mtx2_combine_matches_applying_in_turn() {
    let a = Mtx2::build(2, -1, 0, 3);
    let b = Mtx2::build(1, 4, -2, 5);
    let v = Vtx2::build(3, -7);
    assert_eq!(a.combine(b).apply(v), a.apply(b.apply(v)));
}

#[test]
fn mtx3_basis_rows_and_put() {
    let m = Mtx3::build(1, 2, 3, 4, 5, 6, 7, 8, 9);
    assert_eq!(m.i(), Vtx3::build(1, 2, 3));
    assert_eq!(m.j(), Vtx3::build(4, 5, 6));
    assert_eq!(m.k(), Vtx3::build(7, 8, 9));
    assert_eq!(m.x(), Vtx3::build(1, 4, 7));
    assert_eq!(m.y(), Vtx3::build(2, 5, 8));
    assert_eq!(m.z(), Vtx3::build(3, 6, 9));
    let v = Vtx3::build(0, -1, -2);
    assert_eq!(m.put_i(v), Mtx3::build(0, -1, -2, 4, 5, 6, 7, 8, 9));
    assert_eq!(m.put_j(v), Mtx3::build(1, 2, 3, 0, -1, -2, 7, 8, 9));
    assert_eq!(m.put_k(v), Mtx3::build(1, 2, 3, 4, 5, 6, 0, -1, -2));
    assert_eq!(m.put_x(v), Mtx3::build(0, 2, 3, -1, 5, 6, -2, 8, 9));
    assert_eq!(m.put_y(v), Mtx3::build(1, 0, 3, 4, -1, 6, 7, -2, 9));
    assert_eq!(m.put_z(v), Mtx3::build(1, 2, 0, 4, 5, -1, 7, 8, -2));
}

#[test]
fn mtx3_det() {
    assert_eq!(Mtx3::build(1, 2, 3, 4, 5, 6, 7, 8, 9).det(), 0);
    assert_eq!(Mtx3::build(2, 0, 0, 0, 3, 0, 0, 0, 4).det(), 24);
    assert_eq!(Mtx3::build(0, 1, 0, 1, 0, 0, 0, 0, 1).det(), -1);
    assert_eq!(Mtx3::build(2, 1, 0, 0, 1, 3, 1, 0, 1).det(), 5);
}

#[test]
fn mtx3_apply_and_combine() {
    let a = Mtx3::build(1, 0, 2, 0, 1, 0, 3, 0, 1);
    let b = Mtx3::build(0, 1, 0, 2, 0, 0, 0, 0, 5);
    let v = Vtx3::build(1, 2, 3);
    assert_eq!(a.apply(v), Vtx3::build(10, 2, 5));
    assert_eq!(a.combine(b).apply(v), a.apply(b.apply(v)));
    assert_eq!(a.combine(b), Mtx3::build(0, 1, 0, 2, 0, 4, 15, 0, 5));
}

#[test]
fn qtx_identity_keeps_vector() {
    let q = Qtx { s: 1, u: Vtx3::build(0, 0, 0) };
    assert_eq!(q.apply(Vtx3::build(3, -4, 5)), Vtx3::build(3, -4, 5));
}

#[test]
fn qtx_half_turn_about_z() {
    let q = Qtx { s: 0, u: Vtx3::build(0, 0, 1) };
    assert_eq!(q.apply(Vtx3::build(1, 2, 3)), Vtx3::build(-1, -2, 3));
}

#[test]
fn qtx_quarter_turn_about_z() {
    let h = std::f64::consts::FRAC_PI_4;
    let q = Qtx { s: h.cos(), u: Vtx3::build(0.0, 0.0, h.sin()) };
    let r = q.apply(Vtx3::build(1.0, 0.0, 2.0));
    assert!(r.x.abs() < 1e-12);
    assert!((r.y - 1.0).abs() < 1e-12);
    assert!((r.z - 2.0).abs() < 1e-12);
}

#[test]
fn vtx2_integer_scale_then_divide_is_exact() {
    let v = Vtx2::build(-7i64, 12);
    assert_eq!((v * -3) / -3, v);
    assert_eq!((v * 5) / 5, v);
}

#[test]
fn mtx2_integer_identity() {
    let ident = Mtx2::build(1i64, 0, 0, 1);
    assert_eq!(ident.det(), 1);
    assert_eq!(ident.apply(Vtx2::build(-9, 4)), Vtx2::build(-9, 4));
}

#[test]
fn zero_constructors() {
    assert_eq!(Vtx2::<f64>::new(), Vtx2::build(0.0, 0.0));
    assert_eq!(Vtx3::<f32>::new(), Vtx3::build(0.0, 0.0, 0.0));
    assert_eq!(Mtx2::<f64>::new(), Mtx2::build(0.0, 0.0, 0.0, 0.0));
    assert_eq!(Mtx3::<i64>::new(), Mtx3::build(0, 0, 0, 0, 0, 0, 0, 0, 0));
    assert_eq!(Qtx::<f64>::new(), Qtx { s: 0.0, u: Vtx3::build(0.0, 0.0, 0.0) });
}

#[test]
fn mtx2_ident_det_and_apply() {
    let ident = Mtx2::<f64>::ident();
    assert_eq!(ident, Mtx2::build(1.0, 0.0, 0.0, 1.0));
    assert_eq!(ident.det(), 1.0);
    for v in [Vtx2::build(0.0, 0.0), Vtx2::build(-3.5, 2.25), Vtx2::build(1e300, -1e-300)] {
        assert_eq!(ident.apply(v), v);
    }
}

#[test]
fn mtx2_quarter_and_half_turns() {
    let x = Vtx2::build(1.0, 0.0);
    assert_eq!(Mtx2::<f64>::rot_90().apply(x), Vtx2::build(0.0, -1.0));
    assert_eq!(Mtx2::<f64>::rot_180().apply(x), Vtx2::build(-1.0, 0.0));
    assert_eq!(Mtx2::<f64>::rot_270().apply(x), Vtx2::build(0.0, 1.0));
    assert_eq!(Mtx2::<i64>::rot_90().combine(Mtx2::rot_270()), Mtx2::ident());
    assert_eq!(Mtx2::<i64>::rot_180().combine(Mtx2::rot_180()), Mtx2::ident());
}

#[test]
fn mtx2_twice_identity_inverse() {
    let m = Mtx2::build(2.0, 0.0, 0.0, 2.0);
    assert_eq!(m.det(), 4.0);
    assert_eq!(m.inverse(), Some(Mtx2::build(0.5, 0.0, 0.0, 0.5)));
}

#[test]
fn mtx2_singular_has_no_inverse() {
    assert_eq!(Mtx2::build(1.0, 0.0, 0.0, 0.0).inverse(), None);
    assert_eq!(Mtx2::build(1.0, 2.0, 2.0, 4.0).inverse(), None);
    assert_eq!(Mtx2::build(1, 0, 0, 0).inverse(), None);
}

#[test]
fn mtx2_inverse_undoes_matrix() {
    let m = Mtx2::build(4.0f64, 2.0, 7.0, 6.0);
    let inv = m.inverse().unwrap();
    assert_eq!(inv, Mtx2::build(0.6, -0.2, -0.7, 0.4));
    let p = m.combine(inv);
    assert!((p.ix - 1.0).abs() < 1e-12 && p.iy.abs() < 1e-12);
    assert!(p.jx.abs() < 1e-12 && (p.jy - 1.0).abs() < 1e-12);
}

#[test]
fn mtx3_ident() {
    let ident = Mtx3::<f64>::ident();
    assert_eq!(ident, Mtx3::build(1.0, 0.0, 0.0, 0.0, 1.0, 0.0, 0.0, 0.0, 1.0));
    assert_eq!(ident.det(), 1.0);
    let v = Vtx3::build(1.5, -2.0, 8.0);
    assert_eq!(ident.apply(v), v);
}

#[test]
fn mtx3_diagonal_inverse() {
    let m = Mtx3::build(2.0, 0.0, 0.0, 0.0, 4.0, 0.0, 0.0, 0.0, 8.0);
    assert_eq!(m.inverse(), Some(Mtx3::build(0.5, 0.0, 0.0, 0.0, 0.25, 0.0, 0.0, 0.0, 0.125)));
}

#[test]
fn mtx3_singular_has_no_inverse() {
    assert_eq!(Mtx3::build(1.0, 2.0, 3.0, 4.0, 5.0, 6.0, 7.0, 8.0, 9.0).inverse(), None);
    assert_eq!(Mtx3::<f64>::new().inverse(), None);
}

#[test]
fn mtx3_inverse_undoes_matrix() {
    let m = Mtx3::build(2.0, 1.0, 0.0, 0.0, 1.0, 3.0, 1.0, 0.0, 1.0);
    let p = m.combine(m.inverse().unwrap());
    let ident = Mtx3::<f64>::ident();
    for (a, b) in [(p.i(), ident.i()), (p.j(), ident.j()), (p.k(), ident.k())] {
        assert!((a - b).dot(a - b) < 1e-24);
    }
}

#[test]
fn mtx3_integer_inverse_divides_adjugate() {
    let m = Mtx3::build(1, 0, 0, 0, 1, 0, 0, 0, 1);
    assert_eq!(m.inverse(), Some(m));
    let n = Mtx3::build(-1, 0, 0, 0, 1, 0, 0, 0, 1);
    assert_eq!(n.det(), -1);
    assert_eq!(n.inverse(), Some(n));
}
