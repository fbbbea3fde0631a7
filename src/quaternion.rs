use crate::scalar::zero;
use crate::vector::Vtx3;
use vstd::prelude::*;
use vstd::std_specs::convert::FromSpec;
use vstd::std_specs::ops::{AddSpec, MulSpec, SubSpec};

verus! {

/// A quaternion with scalar part `s` and vector part `u`. A rotation by
/// angle `a` about a unit axis is `(cos(a/2), sin(a/2) * axis)`.
#[derive(Debug, Default, Clone, Copy, PartialEq)]
pub struct Qtx<T> {
    pub s: T,
    pub u: Vtx3<T>,
}

impl<T: Copy + From<i8>> Qtx<T> {
    /// The quaternion with every part zero.
    pub fn new() -> (r: Qtx<T>)
        ensures
            <T as FromSpec<i8>>::obeys_from_spec() ==> r == (Qtx {
                s: zero::<T>(),
                u: Vtx3 { x: zero::<T>(), y: zero::<T>(), z: zero::<T>() },
            }),
    {
        Qtx { s: T::from(0i8), u: Vtx3::new() }
    }
}

impl<T: Copy + std::ops::Add<Output = T> + std::ops::Sub<Output = T> + std::ops::Mul<Output = T>> Qtx<
    T,
> {
    /// The three terms of the rotated vector: `2 (u.v) u`, `(s^2 - u.u) v`
    /// and `2 s (u x v)`, each scalar factor doubled by adding it to itself.
    pub open spec fn terms(self, v: Vtx3<T>) -> (Vtx3<T>, Vtx3<T>, Vtx3<T>) {
        let uv = self.u.dot_spec(v);
        let uu = self.u.dot_spec(self.u);
        (
            self.u.mul_spec(uv.add_spec(uv)),
            v.mul_spec(self.s.mul_spec(self.s).sub_spec(uu)),
            self.u.cross_spec(v).mul_spec(self.s.add_spec(self.s)),
        )
    }

    pub open spec fn apply_req(self, v: Vtx3<T>) -> bool {
        let uv = self.u.dot_spec(v);
        let uu = self.u.dot_spec(self.u);
        let (a, b, c) = self.terms(v);
        &&& self.u.dot_req(v)
        &&& self.u.dot_req(self.u)
        &&& self.u.cross_req(v)
        &&& uv.add_req(uv)
        &&& self.s.mul_req(self.s)
        &&& self.s.mul_spec(self.s).sub_req(uu)
        &&& self.s.add_req(self.s)
        &&& self.u.mul_req(uv.add_spec(uv))
        &&& v.mul_req(self.s.mul_spec(self.s).sub_spec(uu))
        &&& self.u.cross_spec(v).mul_req(self.s.add_spec(self.s))
        &&& a.add_req(b)
        &&& a.add_spec(b).add_req(c)
    }

    /// `2 (u.v) u + (s^2 - u.u) v + 2 s (u x v)`: `v` rotated by the
    /// rotation that the quaternion stands for.
    pub open spec fn apply_spec(self, v: Vtx3<T>) -> Vtx3<T> {
        let (a, b, c) = self.terms(v);
        a.add_spec(b).add_spec(c)
    }

    /// Rotates `v` by the quaternion.
    pub fn apply(&self, v: Vtx3<T>) -> (r: Vtx3<T>)
        requires
            <T as MulSpec>::obeys_mul_spec(),
            <T as AddSpec>::obeys_add_spec(),
            <T as SubSpec>::obeys_sub_spec(),
            self.apply_req(v),
        ensures
            r == self.apply_spec(v),
    {
        let u = self.u;
        let s = self.s;
        let uv = u.dot(v);
        let uu = u.dot(u);
        let a = u * (uv + uv);
        let b = v * (s * s - uu);
        let c = u.cross(v) * (s + s);
        a + b + c
    }
}

} // verus!
