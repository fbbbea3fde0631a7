use vstd::prelude::*;
use crate::scalar::{
    diff2, diff2_req, mul_add2, mul_add3, mul_sub2, sum2, sum2_req, sum3, sum3_req, zero,
};
use vstd::std_specs::convert::FromSpec;
use vstd::std_specs::ops::{AddSpec, MulSpec, SubSpec};

verus! {

/// A point or direction in the plane, over any scalar type.
#[derive(Debug, Default, Clone, Copy, PartialEq)]
pub struct Vtx2<T> {
    pub x: T,
    pub y: T,
}

/// A point or direction in space, over any scalar type.
#[derive(Debug, Default, Clone, Copy, PartialEq)]
pub struct Vtx3<T> {
    pub x: T,
    pub y: T,
    pub z: T,
}

impl<T: Copy + From<i8>> Vtx2<T> {
    /// The zero vector.
    pub fn new() -> (r: Vtx2<T>)
        ensures
            <T as FromSpec<i8>>::obeys_from_spec() ==> r == (Vtx2 { x: zero::<T>(), y: zero::<T>() }),
    {
        Vtx2 { x: T::from(0i8), y: T::from(0i8) }
    }
}

impl<T: Copy + From<i8>> Vtx3<T> {
    /// The zero vector.
    pub fn new() -> (r: Vtx3<T>)
        ensures
            <T as FromSpec<i8>>::obeys_from_spec() ==> r == (Vtx3 {
                x: zero::<T>(),
                y: zero::<T>(),
                z: zero::<T>(),
            }),
    {
        Vtx3 { x: T::from(0i8), y: T::from(0i8), z: T::from(0i8) }
    }
}

impl<T: Copy> Vtx2<T> {
    pub fn build(x: T, y: T) -> (r: Vtx2<T>)
        ensures
            r == (Vtx2 { x, y }),
    {
        Vtx2 { x, y }
    }
}

impl<T: Copy> Vtx3<T> {
    pub fn build(x: T, y: T, z: T) -> (r: Vtx3<T>)
        ensures
            r == (Vtx3 { x, y, z }),
    {
        Vtx3 { x, y, z }
    }

    /// The projection onto the xy plane: z is dropped.
    pub fn xy(&self) -> (r: Vtx2<T>)
        ensures
            r == (Vtx2 { x: self.x, y: self.y }),
    {
        Vtx2 { x: self.x, y: self.y }
    }

    /// The projection onto the xz plane: y is dropped.
    pub fn xz(&self) -> (r: Vtx2<T>)
        ensures
            r == (Vtx2 { x: self.x, y: self.z }),
    {
        Vtx2 { x: self.x, y: self.z }
    }

    /// The projection onto the yz plane: x is dropped.
    pub fn yz(&self) -> (r: Vtx2<T>)
        ensures
            r == (Vtx2 { x: self.y, y: self.z }),
    {
        Vtx2 { x: self.y, y: self.z }
    }
}

impl<T: Copy + std::ops::Add<Output = T> + std::ops::Sub<Output = T> + std::ops::Mul<Output = T>> Vtx2<
    T,
> {
    pub open spec fn dot_req(self, v: Vtx2<T>) -> bool {
        sum2_req(self.x, v.x, self.y, v.y)
    }

    pub open spec fn dot_spec(self, v: Vtx2<T>) -> T {
        sum2(self.x, v.x, self.y, v.y)
    }

    pub open spec fn cross_req(self, v: Vtx2<T>) -> bool {
        diff2_req(self.x, v.y, self.y, v.x)
    }

    pub open spec fn cross_spec(self, v: Vtx2<T>) -> T {
        diff2(self.x, v.y, self.y, v.x)
    }

    /// The dot product `x * v.x + y * v.y`.
    pub fn dot(&self, v: Vtx2<T>) -> (r: T)
        requires
            <T as MulSpec>::obeys_mul_spec(),
            self.dot_req(v),
        ensures
            <T as AddSpec>::obeys_add_spec() ==> r == self.dot_spec(v),
    {
        mul_add2(self.x, v.x, self.y, v.y)
    }

    /// The signed area `x * v.y - y * v.x`: the z component of the cross
    /// product of the two vectors placed in the xy plane of space.
    pub fn cross(&self, v: Vtx2<T>) -> (r: T)
        requires
            <T as MulSpec>::obeys_mul_spec(),
            self.cross_req(v),
        ensures
            <T as SubSpec>::obeys_sub_spec() ==> r == self.cross_spec(v),
    {
        mul_sub2(self.x, v.y, self.y, v.x)
    }
}

impl<T: Copy + std::ops::Add<Output = T> + std::ops::Sub<Output = T> + std::ops::Mul<Output = T>> Vtx3<
    T,
> {
    pub open spec fn dot_req(self, v: Vtx3<T>) -> bool {
        sum3_req(self.x, v.x, self.y, v.y, self.z, v.z)
    }

    pub open spec fn dot_spec(self, v: Vtx3<T>) -> T {
        sum3(self.x, v.x, self.y, v.y, self.z, v.z)
    }

    pub open spec fn cross_req(self, v: Vtx3<T>) -> bool {
        &&& diff2_req(self.y, v.z, self.z, v.y)
        &&& diff2_req(self.z, v.x, self.x, v.z)
        &&& diff2_req(self.x, v.y, self.y, v.x)
    }

    pub open spec fn cross_spec(self, v: Vtx3<T>) -> Vtx3<T> {
        Vtx3 {
            x: diff2(self.y, v.z, self.z, v.y),
            y: diff2(self.z, v.x, self.x, v.z),
            z: diff2(self.x, v.y, self.y, v.x),
        }
    }

    /// The dot product `x * v.x + y * v.y + z * v.z`.
    pub fn dot(&self, v: Vtx3<T>) -> (r: T)
        requires
            <T as MulSpec>::obeys_mul_spec(),
            <T as AddSpec>::obeys_add_spec(),
            self.dot_req(v),
        ensures
            r == self.dot_spec(v),
    {
        mul_add3(self.x, v.x, self.y, v.y, self.z, v.z)
    }

    /// The cross product.
    pub fn cross(&self, v: Vtx3<T>) -> (r: Vtx3<T>)
        requires
            <T as MulSpec>::obeys_mul_spec(),
            self.cross_req(v),
        ensures
            <T as SubSpec>::obeys_sub_spec() ==> r == self.cross_spec(v),
    {
        Vtx3 {
            x: mul_sub2(self.y, v.z, self.z, v.y),
            y: mul_sub2(self.z, v.x, self.x, v.z),
            z: mul_sub2(self.x, v.y, self.y, v.x),
        }
    }
}

impl<T: Copy> From<(T, T)> for Vtx2<T> {
    fn from(p: (T, T)) -> (r: Vtx2<T>) {
        Vtx2 { x: p.0, y: p.1 }
    }
}

impl<T: Copy> vstd::std_specs::convert::FromSpecImpl<(T, T)> for Vtx2<T> {
    open spec fn obeys_from_spec() -> bool {
        true
    }

    open spec fn from_spec(p: (T, T)) -> Vtx2<T> {
        Vtx2 { x: p.0, y: p.1 }
    }
}

impl<T: Copy> From<Vtx2<T>> for (T, T) {
    fn from(v: Vtx2<T>) -> (r: (T, T)) {
        (v.x, v.y)
    }
}

impl<T: Copy> vstd::std_specs::convert::FromSpecImpl<Vtx2<T>> for (T, T) {
    open spec fn obeys_from_spec() -> bool {
        true
    }

    open spec fn from_spec(v: Vtx2<T>) -> (T, T) {
        (v.x, v.y)
    }
}

impl<T: Copy> From<(T, T, T)> for Vtx3<T> {
    fn from(p: (T, T, T)) -> (r: Vtx3<T>) {
        Vtx3 { x: p.0, y: p.1, z: p.2 }
    }
}

impl<T: Copy> vstd::std_specs::convert::FromSpecImpl<(T, T, T)> for Vtx3<T> {
    open spec fn obeys_from_spec() -> bool {
        true
    }

    open spec fn from_spec(p: (T, T, T)) -> Vtx3<T> {
        Vtx3 { x: p.0, y: p.1, z: p.2 }
    }
}

impl<T: Copy> From<Vtx3<T>> for (T, T, T) {
    fn from(v: Vtx3<T>) -> (r: (T, T, T)) {
        (v.x, v.y, v.z)
    }
}

impl<T: Copy> vstd::std_specs::convert::FromSpecImpl<Vtx3<T>> for (T, T, T) {
    open spec fn obeys_from_spec() -> bool {
        true
    }

    open spec fn from_spec(v: Vtx3<T>) -> (T, T, T) {
        (v.x, v.y, v.z)
    }
}

/// A plane vector turned into a pair and back is the same vector, and a
/// pair turned into a vector and back is the same pair.
pub proof fn lemma_vtx2_pair_round_trip<T: Copy>(v: Vtx2<T>, p: (T, T))
    ensures
        <Vtx2<T> as FromSpec<(T, T)>>::from_spec(<(T, T) as FromSpec<Vtx2<T>>>::from_spec(v)) == v,
        <(T, T) as FromSpec<Vtx2<T>>>::from_spec(<Vtx2<T> as FromSpec<(T, T)>>::from_spec(p)) == p,
{
}

/// A space vector turned into a triple and back is the same vector, and a
/// triple turned into a vector and back is the same triple.
pub proof fn lemma_vtx3_triple_round_trip<T: Copy>(v: Vtx3<T>, p: (T, T, T))
    ensures
        <Vtx3<T> as FromSpec<(T, T, T)>>::from_spec(<(T, T, T) as FromSpec<Vtx3<T>>>::from_spec(v))
            == v,
        <(T, T, T) as FromSpec<Vtx3<T>>>::from_spec(<Vtx3<T> as FromSpec<(T, T, T)>>::from_spec(p))
            == p,
{
}

} // verus!
