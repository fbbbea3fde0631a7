use crate::scalar::{one, zero};
use crate::vector::{Vtx2, Vtx3};
use std::ops::Neg;
use vstd::prelude::*;
use vstd::std_specs::cmp::PartialEqSpec;
use vstd::std_specs::convert::FromSpec;
use vstd::std_specs::ops::{AddSpec, DivSpec, MulSpec, NegSpec, SubSpec};

verus! {

/// Each component of `v` may be divided by `d`.
pub open spec fn divides_req<T: Copy + std::ops::Div<Output = T>>(v: Vtx3<T>, d: T) -> bool {
    v.x.div_req(d) && v.y.div_req(d) && v.z.div_req(d)
}

/// `v` with each component divided by `d`.
pub open spec fn divided<T: Copy + std::ops::Div<Output = T>>(v: Vtx3<T>, d: T) -> Vtx3<T> {
    Vtx3 { x: v.x.div_spec(d), y: v.y.div_spec(d), z: v.z.div_spec(d) }
}

/// A linear map of the plane, held as the images of the unit vectors:
/// `i = (ix, iy)` and `j = (jx, jy)` are its columns.
#[derive(Debug, Default, Clone, Copy, PartialEq)]
pub struct Mtx2<T> {
    pub ix: T,
    pub iy: T,
    pub jx: T,
    pub jy: T,
}

/// A linear map of space, held as the images of the unit vectors:
/// `i`, `j` and `k` are its columns.
#[derive(Debug, Default, Clone, Copy, PartialEq)]
pub struct Mtx3<T> {
    pub ix: T,
    pub iy: T,
    pub iz: T,
    pub jx: T,
    pub jy: T,
    pub jz: T,
    pub kx: T,
    pub ky: T,
    pub kz: T,
}

impl<T: Copy> Mtx2<T> {
    pub open spec fn basis_i(self) -> Vtx2<T> {
        Vtx2 { x: self.ix, y: self.iy }
    }

    pub open spec fn basis_j(self) -> Vtx2<T> {
        Vtx2 { x: self.jx, y: self.jy }
    }

    pub open spec fn row_x(self) -> Vtx2<T> {
        Vtx2 { x: self.ix, y: self.jx }
    }

    pub open spec fn row_y(self) -> Vtx2<T> {
        Vtx2 { x: self.iy, y: self.jy }
    }

    /// The matrix with columns `i` and `j`.
    pub open spec fn of_columns(i: Vtx2<T>, j: Vtx2<T>) -> Mtx2<T> {
        Mtx2 { ix: i.x, iy: i.y, jx: j.x, jy: j.y }
    }

    pub fn build(ix: T, iy: T, jx: T, jy: T) -> (r: Mtx2<T>)
        ensures
            r == (Mtx2 { ix, iy, jx, jy }),
    {
        Mtx2 { ix, iy, jx, jy }
    }

    pub fn i(&self) -> (r: Vtx2<T>)
        ensures
            r == self.basis_i(),
    {
        Vtx2 { x: self.ix, y: self.iy }
    }

    pub fn j(&self) -> (r: Vtx2<T>)
        ensures
            r == self.basis_j(),
    {
        Vtx2 { x: self.jx, y: self.jy }
    }

    pub fn x(&self) -> (r: Vtx2<T>)
        ensures
            r == self.row_x(),
    {
        Vtx2 { x: self.ix, y: self.jx }
    }

    pub fn y(&self) -> (r: Vtx2<T>)
        ensures
            r == self.row_y(),
    {
        Vtx2 { x: self.iy, y: self.jy }
    }

    /// The matrix with its first column replaced by `v`.
    pub fn put_i(&self, v: Vtx2<T>) -> (r: Mtx2<T>)
        ensures
            r == (Mtx2 { ix: v.x, iy: v.y, ..*self }),
    {
        Mtx2 { ix: v.x, iy: v.y, ..*self }
    }

    /// The matrix with its second column replaced by `v`.
    pub fn put_j(&self, v: Vtx2<T>) -> (r: Mtx2<T>)
        ensures
            r == (Mtx2 { jx: v.x, jy: v.y, ..*self }),
    {
        Mtx2 { jx: v.x, jy: v.y, ..*self }
    }

    /// The matrix with its first row replaced by `v`.
    pub fn put_x(&self, v: Vtx2<T>) -> (r: Mtx2<T>)
        ensures
            r == (Mtx2 { ix: v.x, jx: v.y, ..*self }),
    {
        Mtx2 { ix: v.x, jx: v.y, ..*self }
    }

    /// The matrix with its second row replaced by `v`.
    pub fn put_y(&self, v: Vtx2<T>) -> (r: Mtx2<T>)
        ensures
            r == (Mtx2 { iy: v.x, jy: v.y, ..*self }),
    {
        Mtx2 { iy: v.x, jy: v.y, ..*self }
    }
}

impl<T: Copy + From<i8>> Mtx2<T> {
    /// The matrix with entries `ix, iy, jx, jy` given as small integers.
    pub open spec fn of_ints(ix: i8, iy: i8, jx: i8, jy: i8) -> Mtx2<T> {
        Mtx2 {
            ix: <T as FromSpec<i8>>::from_spec(ix),
            iy: <T as FromSpec<i8>>::from_spec(iy),
            jx: <T as FromSpec<i8>>::from_spec(jx),
            jy: <T as FromSpec<i8>>::from_spec(jy),
        }
    }

    /// The zero matrix.
    pub fn new() -> (r: Mtx2<T>)
        ensures
            <T as FromSpec<i8>>::obeys_from_spec() ==> r == Self::of_ints(0, 0, 0, 0),
    {
        Mtx2 { ix: T::from(0i8), iy: T::from(0i8), jx: T::from(0i8), jy: T::from(0i8) }
    }

    /// The identity.
    pub fn ident() -> (r: Mtx2<T>)
        ensures
            <T as FromSpec<i8>>::obeys_from_spec() ==> r == Self::of_ints(1, 0, 0, 1),
    {
        Mtx2 { ix: T::from(1i8), iy: T::from(0i8), jx: T::from(0i8), jy: T::from(1i8) }
    }

    /// The quarter turn that takes `i` to `(0, -1)` and `j` to `(1, 0)`.
    pub fn rot_90() -> (r: Mtx2<T>)
        ensures
            <T as FromSpec<i8>>::obeys_from_spec() ==> r == Self::of_ints(0, -1i8, 1, 0),
    {
        Mtx2 { ix: T::from(0i8), iy: T::from(-1i8), jx: T::from(1i8), jy: T::from(0i8) }
    }

    /// The half turn.
    pub fn rot_180() -> (r: Mtx2<T>)
        ensures
            <T as FromSpec<i8>>::obeys_from_spec() ==> r == Self::of_ints(-1i8, 0, 0, -1i8),
    {
        Mtx2 { ix: T::from(-1i8), iy: T::from(0i8), jx: T::from(0i8), jy: T::from(-1i8) }
    }

    /// The quarter turn that takes `i` to `(0, 1)` and `j` to `(-1, 0)`.
    pub fn rot_270() -> (r: Mtx2<T>)
        ensures
            <T as FromSpec<i8>>::obeys_from_spec() ==> r == Self::of_ints(0, 1, -1i8, 0),
    {
        Mtx2 { ix: T::from(0i8), iy: T::from(1i8), jx: T::from(-1i8), jy: T::from(0i8) }
    }
}

impl<
    T: Copy + PartialEq + From<i8> + std::ops::Add<Output = T> + std::ops::Sub<Output = T>
        + std::ops::Mul<Output = T> + std::ops::Div<Output = T> + std::ops::Neg<Output = T>,
> Mtx2<T> {
    /// The adjugate divided by the determinant `d`.
    pub open spec fn scaled_adjugate(self, d: T) -> Mtx2<T> {
        Mtx2 {
            ix: self.jy.div_spec(d),
            iy: self.iy.neg_spec().div_spec(d),
            jx: self.jx.neg_spec().div_spec(d),
            jy: self.ix.div_spec(d),
        }
    }

    pub open spec fn inverse_req(self) -> bool {
        let d = self.det_spec();
        &&& self.det_req()
        &&& !d.eq_spec(&zero::<T>()) ==> {
            &&& self.iy.neg_req()
            &&& self.jx.neg_req()
            &&& self.jy.div_req(d)
            &&& self.iy.neg_spec().div_req(d)
            &&& self.jx.neg_spec().div_req(d)
            &&& self.ix.div_req(d)
        }
    }

    /// No inverse where the determinant is exactly zero; otherwise the
    /// adjugate divided by the determinant.
    pub open spec fn inverse_spec(self) -> Option<Mtx2<T>> {
        let d = self.det_spec();
        if d.eq_spec(&zero::<T>()) {
            None
        } else {
            Some(self.scaled_adjugate(d))
        }
    }

    /// The inverse, or `None` where the determinant is exactly zero.
    pub fn inverse(&self) -> (r: Option<Mtx2<T>>)
        requires
            <T as MulSpec>::obeys_mul_spec(),
            <T as SubSpec>::obeys_sub_spec(),
            <T as FromSpec<i8>>::obeys_from_spec(),
            <T as PartialEqSpec>::obeys_eq_spec(),
            <T as NegSpec>::obeys_neg_spec(),
            self.inverse_req(),
        ensures
            <T as DivSpec>::obeys_div_spec() ==> r == self.inverse_spec(),
            r.is_none() <==> self.det_spec().eq_spec(&zero::<T>()),
    {
        let d = self.det();
        if d == T::from(0i8) {
            None
        } else {
            Some(Mtx2 { ix: self.jy / d, iy: self.iy.neg() / d, jx: self.jx.neg() / d, jy: self.ix / d })
        }
    }
}

impl<T: Copy + std::ops::Add<Output = T> + std::ops::Sub<Output = T> + std::ops::Mul<Output = T>> Mtx2<
    T,
> {
    pub open spec fn det_req(self) -> bool {
        self.basis_i().cross_req(self.basis_j())
    }

    /// `ix * jy - iy * jx`.
    pub open spec fn det_spec(self) -> T {
        self.basis_i().cross_spec(self.basis_j())
    }

    pub open spec fn apply_req(self, v: Vtx2<T>) -> bool {
        self.row_x().dot_req(v) && self.row_y().dot_req(v)
    }

    /// The matrix-vector product: each row dotted with `v`.
    pub open spec fn apply_spec(self, v: Vtx2<T>) -> Vtx2<T> {
        Vtx2 { x: self.row_x().dot_spec(v), y: self.row_y().dot_spec(v) }
    }

    pub open spec fn combine_req(self, m: Mtx2<T>) -> bool {
        self.apply_req(m.basis_i()) && self.apply_req(m.basis_j())
    }

    /// The matrix product `self * m`: its columns are the columns of `m`
    /// mapped by `self`.
    pub open spec fn combine_spec(self, m: Mtx2<T>) -> Mtx2<T> {
        Self::of_columns(self.apply_spec(m.basis_i()), self.apply_spec(m.basis_j()))
    }

    /// The determinant.
    pub fn det(&self) -> (r: T)
        requires
            <T as MulSpec>::obeys_mul_spec(),
            self.det_req(),
        ensures
            <T as SubSpec>::obeys_sub_spec() ==> r == self.det_spec(),
    {
        self.i().cross(self.j())
    }

    /// Maps `v` through the matrix.
    pub fn apply(&self, v: Vtx2<T>) -> (r: Vtx2<T>)
        requires
            <T as MulSpec>::obeys_mul_spec(),
            self.apply_req(v),
        ensures
            <T as AddSpec>::obeys_add_spec() ==> r == self.apply_spec(v),
    {
        Vtx2 { x: self.x().dot(v), y: self.y().dot(v) }
    }

    /// The composition that applies `m` first, then `self`.
    pub fn combine(&self, m: Mtx2<T>) -> (r: Mtx2<T>)
        requires
            <T as MulSpec>::obeys_mul_spec(),
            self.combine_req(m),
        ensures
            <T as AddSpec>::obeys_add_spec() ==> r == self.combine_spec(m),
    {
        let i = self.apply(m.i());
        let j = self.apply(m.j());
        Mtx2 { ix: i.x, iy: i.y, jx: j.x, jy: j.y }
    }
}

impl<T: Copy> Mtx3<T> {
    pub open spec fn basis_i(self) -> Vtx3<T> {
        Vtx3 { x: self.ix, y: self.iy, z: self.iz }
    }

    pub open spec fn basis_j(self) -> Vtx3<T> {
        Vtx3 { x: self.jx, y: self.jy, z: self.jz }
    }

    pub open spec fn basis_k(self) -> Vtx3<T> {
        Vtx3 { x: self.kx, y: self.ky, z: self.kz }
    }

    pub open spec fn row_x(self) -> Vtx3<T> {
        Vtx3 { x: self.ix, y: self.jx, z: self.kx }
    }

    pub open spec fn row_y(self) -> Vtx3<T> {
        Vtx3 { x: self.iy, y: self.jy, z: self.ky }
    }

    pub open spec fn row_z(self) -> Vtx3<T> {
        Vtx3 { x: self.iz, y: self.jz, z: self.kz }
    }

    /// The matrix with columns `i`, `j` and `k`.
    pub open spec fn of_columns(i: Vtx3<T>, j: Vtx3<T>, k: Vtx3<T>) -> Mtx3<T> {
        Mtx3 { ix: i.x, iy: i.y, iz: i.z, jx: j.x, jy: j.y, jz: j.z, kx: k.x, ky: k.y, kz: k.z }
    }

    pub fn build(ix: T, iy: T, iz: T, jx: T, jy: T, jz: T, kx: T, ky: T, kz: T) -> (r: Mtx3<T>)
        ensures
            r == (Mtx3 { ix, iy, iz, jx, jy, jz, kx, ky, kz }),
    {
        Mtx3 { ix, iy, iz, jx, jy, jz, kx, ky, kz }
    }

    pub fn i(&self) -> (r: Vtx3<T>)
        ensures
            r == self.basis_i(),
    {
        Vtx3 { x: self.ix, y: self.iy, z: self.iz }
    }

    pub fn j(&self) -> (r: Vtx3<T>)
        ensures
            r == self.basis_j(),
    {
        Vtx3 { x: self.jx, y: self.jy, z: self.jz }
    }

    pub fn k(&self) -> (r: Vtx3<T>)
        ensures
            r == self.basis_k(),
    {
        Vtx3 { x: self.kx, y: self.ky, z: self.kz }
    }

    pub fn x(&self) -> (r: Vtx3<T>)
        ensures
            r == self.row_x(),
    {
        Vtx3 { x: self.ix, y: self.jx, z: self.kx }
    }

    pub fn y(&self) -> (r: Vtx3<T>)
        ensures
            r == self.row_y(),
    {
        Vtx3 { x: self.iy, y: self.jy, z: self.ky }
    }

    pub fn z(&self) -> (r: Vtx3<T>)
        ensures
            r == self.row_z(),
    {
        Vtx3 { x: self.iz, y: self.jz, z: self.kz }
    }

    /// The matrix with its first column replaced by `v`.
    pub fn put_i(&self, v: Vtx3<T>) -> (r: Mtx3<T>)
        ensures
            r == (Mtx3 { ix: v.x, iy: v.y, iz: v.z, ..*self }),
    {
        Mtx3 { ix: v.x, iy: v.y, iz: v.z, ..*self }
    }

    /// The matrix with its second column replaced by `v`.
    pub fn put_j(&self, v: Vtx3<T>) -> (r: Mtx3<T>)
        ensures
            r == (Mtx3 { jx: v.x, jy: v.y, jz: v.z, ..*self }),
    {
        Mtx3 { jx: v.x, jy: v.y, jz: v.z, ..*self }
    }

    /// The matrix with its third column replaced by `v`.
    pub fn put_k(&self, v: Vtx3<T>) -> (r: Mtx3<T>)
        ensures
            r == (Mtx3 { kx: v.x, ky: v.y, kz: v.z, ..*self }),
    {
        Mtx3 { kx: v.x, ky: v.y, kz: v.z, ..*self }
    }

    /// The matrix with its first row replaced by `v`.
    pub fn put_x(&self, v: Vtx3<T>) -> (r: Mtx3<T>)
        ensures
            r == (Mtx3 { ix: v.x, jx: v.y, kx: v.z, ..*self }),
    {
        Mtx3 { ix: v.x, jx: v.y, kx: v.z, ..*self }
    }

    /// The matrix with its second row replaced by `v`.
    pub fn put_y(&self, v: Vtx3<T>) -> (r: Mtx3<T>)
        ensures
            r == (Mtx3 { iy: v.x, jy: v.y, ky: v.z, ..*self }),
    {
        Mtx3 { iy: v.x, jy: v.y, ky: v.z, ..*self }
    }

    /// The matrix with its third row replaced by `v`.
    pub fn put_z(&self, v: Vtx3<T>) -> (r: Mtx3<T>)
        ensures
            r == (Mtx3 { iz: v.x, jz: v.y, kz: v.z, ..*self }),
    {
        Mtx3 { iz: v.x, jz: v.y, kz: v.z, ..*self }
    }
}

impl<T: Copy + std::ops::Add<Output = T> + std::ops::Sub<Output = T> + std::ops::Mul<Output = T>> Mtx3<
    T,
> {
    pub open spec fn det_req(self) -> bool {
        &&& self.basis_j().cross_req(self.basis_k())
        &&& self.basis_i().dot_req(self.basis_j().cross_spec(self.basis_k()))
    }

    /// The triple product `i . (j x k)`.
    pub open spec fn det_spec(self) -> T {
        self.basis_i().dot_spec(self.basis_j().cross_spec(self.basis_k()))
    }

    pub open spec fn apply_req(self, v: Vtx3<T>) -> bool {
        self.row_x().dot_req(v) && self.row_y().dot_req(v) && self.row_z().dot_req(v)
    }

    /// The matrix-vector product: each row dotted with `v`.
    pub open spec fn apply_spec(self, v: Vtx3<T>) -> Vtx3<T> {
        Vtx3 { x: self.row_x().dot_spec(v), y: self.row_y().dot_spec(v), z: self.row_z().dot_spec(v) }
    }

    pub open spec fn combine_req(self, m: Mtx3<T>) -> bool {
        &&& self.apply_req(m.basis_i())
        &&& self.apply_req(m.basis_j())
        &&& self.apply_req(m.basis_k())
    }

    /// The matrix product `self * m`: its columns are the columns of `m`
    /// mapped by `self`.
    pub open spec fn combine_spec(self, m: Mtx3<T>) -> Mtx3<T> {
        Self::of_columns(
            self.apply_spec(m.basis_i()),
            self.apply_spec(m.basis_j()),
            self.apply_spec(m.basis_k()),
        )
    }

    /// The determinant.
    pub fn det(&self) -> (r: T)
        requires
            <T as MulSpec>::obeys_mul_spec(),
            <T as AddSpec>::obeys_add_spec(),
            <T as SubSpec>::obeys_sub_spec(),
            self.det_req(),
        ensures
            r == self.det_spec(),
    {
        self.i().dot(self.j().cross(self.k()))
    }

    /// Maps `v` through the matrix.
    pub fn apply(&self, v: Vtx3<T>) -> (r: Vtx3<T>)
        requires
            <T as MulSpec>::obeys_mul_spec(),
            <T as AddSpec>::obeys_add_spec(),
            self.apply_req(v),
        ensures
            r == self.apply_spec(v),
    {
        Vtx3 { x: self.x().dot(v), y: self.y().dot(v), z: self.z().dot(v) }
    }

    /// The composition that applies `m` first, then `self`.
    pub fn combine(&self, m: Mtx3<T>) -> (r: Mtx3<T>)
        requires
            <T as MulSpec>::obeys_mul_spec(),
            <T as AddSpec>::obeys_add_spec(),
            self.combine_req(m),
        ensures
            r == self.combine_spec(m),
    {
        let i = self.apply(m.i());
        let j = self.apply(m.j());
        let k = self.apply(m.k());
        Mtx3 { ix: i.x, iy: i.y, iz: i.z, jx: j.x, jy: j.y, jz: j.z, kx: k.x, ky: k.y, kz: k.z }
    }
}

impl<T: Copy + From<i8>> Mtx3<T> {
    /// The zero matrix.
    pub fn new() -> (r: Mtx3<T>)
        ensures
            <T as FromSpec<i8>>::obeys_from_spec() ==> r == Self::of_columns(
                Vtx3 { x: zero::<T>(), y: zero::<T>(), z: zero::<T>() },
                Vtx3 { x: zero::<T>(), y: zero::<T>(), z: zero::<T>() },
                Vtx3 { x: zero::<T>(), y: zero::<T>(), z: zero::<T>() },
            ),
    {
        let o = T::from(0i8);
        Mtx3 { ix: o, iy: o, iz: o, jx: o, jy: o, jz: o, kx: o, ky: o, kz: o }
    }

    /// The identity.
    pub fn ident() -> (r: Mtx3<T>)
        ensures
            <T as FromSpec<i8>>::obeys_from_spec() ==> r == Self::of_columns(
                Vtx3 { x: one::<T>(), y: zero::<T>(), z: zero::<T>() },
                Vtx3 { x: zero::<T>(), y: one::<T>(), z: zero::<T>() },
                Vtx3 { x: zero::<T>(), y: zero::<T>(), z: one::<T>() },
            ),
    {
        let o = T::from(0i8);
        let l = T::from(1i8);
        Mtx3 { ix: l, iy: o, iz: o, jx: o, jy: l, jz: o, kx: o, ky: o, kz: l }
    }

    /// The matrix with rows `x`, `y` and `z`.
    pub open spec fn of_rows(x: Vtx3<T>, y: Vtx3<T>, z: Vtx3<T>) -> Mtx3<T> {
        Mtx3 { ix: x.x, jx: x.y, kx: x.z, iy: y.x, jy: y.y, ky: y.z, iz: z.x, jz: z.y, kz: z.z }
    }
}

impl<
    T: Copy + PartialEq + From<i8> + std::ops::Add<Output = T> + std::ops::Sub<Output = T>
        + std::ops::Mul<Output = T> + std::ops::Div<Output = T>,
> Mtx3<T> {
    pub open spec fn inverse_req(self) -> bool {
        let (i, j, k) = (self.basis_i(), self.basis_j(), self.basis_k());
        let d = self.det_spec();
        &&& self.det_req()
        &&& j.cross_req(k)
        &&& k.cross_req(i)
        &&& i.cross_req(j)
        &&& !d.eq_spec(&zero::<T>()) ==> {
            &&& divides_req(j.cross_spec(k), d)
            &&& divides_req(k.cross_spec(i), d)
            &&& divides_req(i.cross_spec(j), d)
        }
    }

    /// No inverse where the determinant is exactly zero; otherwise the
    /// matrix whose rows are `j x k`, `k x i` and `i x j` divided by the
    /// determinant (the adjugate divided by the determinant).
    pub open spec fn inverse_spec(self) -> Option<Mtx3<T>> {
        let (i, j, k) = (self.basis_i(), self.basis_j(), self.basis_k());
        let d = self.det_spec();
        if d.eq_spec(&zero::<T>()) {
            None
        } else {
            Some(
                Self::of_rows(
                    divided(j.cross_spec(k), d),
                    divided(k.cross_spec(i), d),
                    divided(i.cross_spec(j), d),
                ),
            )
        }
    }

    /// The inverse, or `None` where the determinant is exactly zero.
    pub fn inverse(&self) -> (r: Option<Mtx3<T>>)
        requires
            <T as MulSpec>::obeys_mul_spec(),
            <T as AddSpec>::obeys_add_spec(),
            <T as SubSpec>::obeys_sub_spec(),
            <T as FromSpec<i8>>::obeys_from_spec(),
            <T as PartialEqSpec>::obeys_eq_spec(),
            self.inverse_req(),
        ensures
            <T as DivSpec>::obeys_div_spec() ==> r == self.inverse_spec(),
            r.is_none() <==> self.det_spec().eq_spec(&zero::<T>()),
    {
        let d = self.det();
        if d == T::from(0i8) {
            None
        } else {
            let (i, j, k) = (self.i(), self.j(), self.k());
            let x = j.cross(k);
            let y = k.cross(i);
            let z = i.cross(j);
            Some(
                Mtx3 {
                    ix: x.x / d,
                    jx: x.y / d,
                    kx: x.z / d,
                    iy: y.x / d,
                    jy: y.y / d,
                    ky: y.z / d,
                    iz: z.x / d,
                    jz: z.y / d,
                    kz: z.z / d,
                },
            )
        }
    }
}

/// Over exact integer scalars (`i64`), the identity matrix has determinant
/// one and maps every vector to itself, with no operation on the way out of
/// range.
pub proof fn lemma_ident_i64(v: Vtx2<i64>)
    ensures
        (Mtx2 { ix: 1i64, iy: 0i64, jx: 0i64, jy: 1i64 }).det_req(),
        (Mtx2 { ix: 1i64, iy: 0i64, jx: 0i64, jy: 1i64 }).det_spec() == 1i64,
        (Mtx2 { ix: 1i64, iy: 0i64, jx: 0i64, jy: 1i64 }).apply_req(v),
        (Mtx2 { ix: 1i64, iy: 0i64, jx: 0i64, jy: 1i64 }).apply_spec(v) == v,
{
}

} // verus!
