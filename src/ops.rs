use crate::vector::{Vtx2, Vtx3};
use vstd::prelude::*;
use vstd::std_specs::ops::{AddSpec, DivSpec, MulSpec, SubSpec};

verus! {

// Each operator acts on every component on its own: with another vector of
// the same dimension, component by component; with a single scalar, that
// scalar against every component. Its contract is the scalar type's own
// contract for the operator, taken component by component.

impl<T: Copy + std::ops::Add<Output = T>> std::ops::Add<Vtx2<T>> for Vtx2<T> {
    type Output = Vtx2<T>;

    fn add(self, r: Vtx2<T>) -> (s: Vtx2<T>) {
        Vtx2 { x: self.x + r.x, y: self.y + r.y }
    }
}

impl<T: Copy + std::ops::Add<Output = T>> vstd::std_specs::ops::AddSpecImpl<Vtx2<T>> for Vtx2<T> {
    open spec fn obeys_add_spec() -> bool {
        <T as AddSpec>::obeys_add_spec()
    }

    open spec fn add_req(self, r: Vtx2<T>) -> bool {
        self.x.add_req(r.x) && self.y.add_req(r.y)
    }

    open spec fn add_spec(self, r: Vtx2<T>) -> Vtx2<T> {
        Vtx2 { x: self.x.add_spec(r.x), y: self.y.add_spec(r.y) }
    }
}

impl<T: Copy + std::ops::Add<Output = T>> std::ops::Add<T> for Vtx2<T> {
    type Output = Vtx2<T>;

    fn add(self, r: T) -> (s: Vtx2<T>) {
        Vtx2 { x: self.x + r, y: self.y + r }
    }
}

impl<T: Copy + std::ops::Add<Output = T>> vstd::std_specs::ops::AddSpecImpl<T> for Vtx2<T> {
    open spec fn obeys_add_spec() -> bool {
        <T as AddSpec>::obeys_add_spec()
    }

    open spec fn add_req(self, r: T) -> bool {
        self.x.add_req(r) && self.y.add_req(r)
    }

    open spec fn add_spec(self, r: T) -> Vtx2<T> {
        Vtx2 { x: self.x.add_spec(r), y: self.y.add_spec(r) }
    }
}

impl<T: Copy + std::ops::Sub<Output = T>> std::ops::Sub<Vtx2<T>> for Vtx2<T> {
    type Output = Vtx2<T>;

    fn sub(self, r: Vtx2<T>) -> (s: Vtx2<T>) {
        Vtx2 { x: self.x - r.x, y: self.y - r.y }
    }
}

impl<T: Copy + std::ops::Sub<Output = T>> vstd::std_specs::ops::SubSpecImpl<Vtx2<T>> for Vtx2<T> {
    open spec fn obeys_sub_spec() -> bool {
        <T as SubSpec>::obeys_sub_spec()
    }

    open spec fn sub_req(self, r: Vtx2<T>) -> bool {
        self.x.sub_req(r.x) && self.y.sub_req(r.y)
    }

    open spec fn sub_spec(self, r: Vtx2<T>) -> Vtx2<T> {
        Vtx2 { x: self.x.sub_spec(r.x), y: self.y.sub_spec(r.y) }
    }
}

impl<T: Copy + std::ops::Sub<Output = T>> std::ops::Sub<T> for Vtx2<T> {
    type Output = Vtx2<T>;

    fn sub(self, r: T) -> (s: Vtx2<T>) {
        Vtx2 { x: self.x - r, y: self.y - r }
    }
}

impl<T: Copy + std::ops::Sub<Output = T>> vstd::std_specs::ops::SubSpecImpl<T> for Vtx2<T> {
    open spec fn obeys_sub_spec() -> bool {
        <T as SubSpec>::obeys_sub_spec()
    }

    open spec fn sub_req(self, r: T) -> bool {
        self.x.sub_req(r) && self.y.sub_req(r)
    }

    open spec fn sub_spec(self, r: T) -> Vtx2<T> {
        Vtx2 { x: self.x.sub_spec(r), y: self.y.sub_spec(r) }
    }
}

impl<T: Copy + std::ops::Mul<Output = T>> std::ops::Mul<Vtx2<T>> for Vtx2<T> {
    type Output = Vtx2<T>;

    fn mul(self, r: Vtx2<T>) -> (s: Vtx2<T>) {
        Vtx2 { x: self.x * r.x, y: self.y * r.y }
    }
}

impl<T: Copy + std::ops::Mul<Output = T>> vstd::std_specs::ops::MulSpecImpl<Vtx2<T>> for Vtx2<T> {
    open spec fn obeys_mul_spec() -> bool {
        <T as MulSpec>::obeys_mul_spec()
    }

    open spec fn mul_req(self, r: Vtx2<T>) -> bool {
        self.x.mul_req(r.x) && self.y.mul_req(r.y)
    }

    open spec fn mul_spec(self, r: Vtx2<T>) -> Vtx2<T> {
        Vtx2 { x: self.x.mul_spec(r.x), y: self.y.mul_spec(r.y) }
    }
}

impl<T: Copy + std::ops::Mul<Output = T>> std::ops::Mul<T> for Vtx2<T> {
    type Output = Vtx2<T>;

    fn mul(self, r: T) -> (s: Vtx2<T>) {
        Vtx2 { x: self.x * r, y: self.y * r }
    }
}

impl<T: Copy + std::ops::Mul<Output = T>> vstd::std_specs::ops::MulSpecImpl<T> for Vtx2<T> {
    open spec fn obeys_mul_spec() -> bool {
        <T as MulSpec>::obeys_mul_spec()
    }

    open spec fn mul_req(self, r: T) -> bool {
        self.x.mul_req(r) && self.y.mul_req(r)
    }

    open spec fn mul_spec(self, r: T) -> Vtx2<T> {
        Vtx2 { x: self.x.mul_spec(r), y: self.y.mul_spec(r) }
    }
}

impl<T: Copy + std::ops::Div<Output = T>> std::ops::Div<Vtx2<T>> for Vtx2<T> {
    type Output = Vtx2<T>;

    fn div(self, r: Vtx2<T>) -> (s: Vtx2<T>) {
        Vtx2 { x: self.x / r.x, y: self.y / r.y }
    }
}

impl<T: Copy + std::ops::Div<Output = T>> vstd::std_specs::ops::DivSpecImpl<Vtx2<T>> for Vtx2<T> {
    open spec fn obeys_div_spec() -> bool {
        <T as DivSpec>::obeys_div_spec()
    }

    open spec fn div_req(self, r: Vtx2<T>) -> bool {
        self.x.div_req(r.x) && self.y.div_req(r.y)
    }

    open spec fn div_spec(self, r: Vtx2<T>) -> Vtx2<T> {
        Vtx2 { x: self.x.div_spec(r.x), y: self.y.div_spec(r.y) }
    }
}

impl<T: Copy + std::ops::Div<Output = T>> std::ops::Div<T> for Vtx2<T> {
    type Output = Vtx2<T>;

    fn div(self, r: T) -> (s: Vtx2<T>) {
        Vtx2 { x: self.x / r, y: self.y / r }
    }
}

impl<T: Copy + std::ops::Div<Output = T>> vstd::std_specs::ops::DivSpecImpl<T> for Vtx2<T> {
    open spec fn obeys_div_spec() -> bool {
        <T as DivSpec>::obeys_div_spec()
    }

    open spec fn div_req(self, r: T) -> bool {
        self.x.div_req(r) && self.y.div_req(r)
    }

    open spec fn div_spec(self, r: T) -> Vtx2<T> {
        Vtx2 { x: self.x.div_spec(r), y: self.y.div_spec(r) }
    }
}

impl<T: Copy + std::ops::Add<Output = T>> std::ops::Add<Vtx3<T>> for Vtx3<T> {
    type Output = Vtx3<T>;

    fn add(self, r: Vtx3<T>) -> (s: Vtx3<T>) {
        Vtx3 { x: self.x + r.x, y: self.y + r.y, z: self.z + r.z }
    }
}

impl<T: Copy + std::ops::Add<Output = T>> vstd::std_specs::ops::AddSpecImpl<Vtx3<T>> for Vtx3<T> {
    open spec fn obeys_add_spec() -> bool {
        <T as AddSpec>::obeys_add_spec()
    }

    open spec fn add_req(self, r: Vtx3<T>) -> bool {
        self.x.add_req(r.x) && self.y.add_req(r.y) && self.z.add_req(r.z)
    }

    open spec fn add_spec(self, r: Vtx3<T>) -> Vtx3<T> {
        Vtx3 { x: self.x.add_spec(r.x), y: self.y.add_spec(r.y), z: self.z.add_spec(r.z) }
    }
}

impl<T: Copy + std::ops::Add<Output = T>> std::ops::Add<T> for Vtx3<T> {
    type Output = Vtx3<T>;

    fn add(self, r: T) -> (s: Vtx3<T>) {
        Vtx3 { x: self.x + r, y: self.y + r, z: self.z + r }
    }
}

impl<T: Copy + std::ops::Add<Output = T>> vstd::std_specs::ops::AddSpecImpl<T> for Vtx3<T> {
    open spec fn obeys_add_spec() -> bool {
        <T as AddSpec>::obeys_add_spec()
    }

    open spec fn add_req(self, r: T) -> bool {
        self.x.add_req(r) && self.y.add_req(r) && self.z.add_req(r)
    }

    open spec fn add_spec(self, r: T) -> Vtx3<T> {
        Vtx3 { x: self.x.add_spec(r), y: self.y.add_spec(r), z: self.z.add_spec(r) }
    }
}

impl<T: Copy + std::ops::Sub<Output = T>> std::ops::Sub<Vtx3<T>> for Vtx3<T> {
    type Output = Vtx3<T>;

    fn sub(self, r: Vtx3<T>) -> (s: Vtx3<T>) {
        Vtx3 { x: self.x - r.x, y: self.y - r.y, z: self.z - r.z }
    }
}

impl<T: Copy + std::ops::Sub<Output = T>> vstd::std_specs::ops::SubSpecImpl<Vtx3<T>> for Vtx3<T> {
    open spec fn obeys_sub_spec() -> bool {
        <T as SubSpec>::obeys_sub_spec()
    }

    open spec fn sub_req(self, r: Vtx3<T>) -> bool {
        self.x.sub_req(r.x) && self.y.sub_req(r.y) && self.z.sub_req(r.z)
    }

    open spec fn sub_spec(self, r: Vtx3<T>) -> Vtx3<T> {
        Vtx3 { x: self.x.sub_spec(r.x), y: self.y.sub_spec(r.y), z: self.z.sub_spec(r.z) }
    }
}

impl<T: Copy + std::ops::Sub<Output = T>> std::ops::Sub<T> for Vtx3<T> {
    type Output = Vtx3<T>;

    fn sub(self, r: T) -> (s: Vtx3<T>) {
        Vtx3 { x: self.x - r, y: self.y - r, z: self.z - r }
    }
}

impl<T: Copy + std::ops::Sub<Output = T>> vstd::std_specs::ops::SubSpecImpl<T> for Vtx3<T> {
    open spec fn obeys_sub_spec() -> bool {
        <T as SubSpec>::obeys_sub_spec()
    }

    open spec fn sub_req(self, r: T) -> bool {
        self.x.sub_req(r) && self.y.sub_req(r) && self.z.sub_req(r)
    }

    open spec fn sub_spec(self, r: T) -> Vtx3<T> {
        Vtx3 { x: self.x.sub_spec(r), y: self.y.sub_spec(r), z: self.z.sub_spec(r) }
    }
}

impl<T: Copy + std::ops::Mul<Output = T>> std::ops::Mul<Vtx3<T>> for Vtx3<T> {
    type Output = Vtx3<T>;

    fn mul(self, r: Vtx3<T>) -> (s: Vtx3<T>) {
        Vtx3 { x: self.x * r.x, y: self.y * r.y, z: self.z * r.z }
    }
}

impl<T: Copy + std::ops::Mul<Output = T>> vstd::std_specs::ops::MulSpecImpl<Vtx3<T>> for Vtx3<T> {
    open spec fn obeys_mul_spec() -> bool {
        <T as MulSpec>::obeys_mul_spec()
    }

    open spec fn mul_req(self, r: Vtx3<T>) -> bool {
        self.x.mul_req(r.x) && self.y.mul_req(r.y) && self.z.mul_req(r.z)
    }

    open spec fn mul_spec(self, r: Vtx3<T>) -> Vtx3<T> {
        Vtx3 { x: self.x.mul_spec(r.x), y: self.y.mul_spec(r.y), z: self.z.mul_spec(r.z) }
    }
}

impl<T: Copy + std::ops::Mul<Output = T>> std::ops::Mul<T> for Vtx3<T> {
    type Output = Vtx3<T>;

    fn mul(self, r: T) -> (s: Vtx3<T>) {
        Vtx3 { x: self.x * r, y: self.y * r, z: self.z * r }
    }
}

impl<T: Copy + std::ops::Mul<Output = T>> vstd::std_specs::ops::MulSpecImpl<T> for Vtx3<T> {
    open spec fn obeys_mul_spec() -> bool {
        <T as MulSpec>::obeys_mul_spec()
    }

    open spec fn mul_req(self, r: T) -> bool {
        self.x.mul_req(r) && self.y.mul_req(r) && self.z.mul_req(r)
    }

    open spec fn mul_spec(self, r: T) -> Vtx3<T> {
        Vtx3 { x: self.x.mul_spec(r), y: self.y.mul_spec(r), z: self.z.mul_spec(r) }
    }
}

impl<T: Copy + std::ops::Div<Output = T>> std::ops::Div<Vtx3<T>> for Vtx3<T> {
    type Output = Vtx3<T>;

    fn div(self, r: Vtx3<T>) -> (s: Vtx3<T>) {
        Vtx3 { x: self.x / r.x, y: self.y / r.y, z: self.z / r.z }
    }
}

impl<T: Copy + std::ops::Div<Output = T>> vstd::std_specs::ops::DivSpecImpl<Vtx3<T>> for Vtx3<T> {
    open spec fn obeys_div_spec() -> bool {
        <T as DivSpec>::obeys_div_spec()
    }

    open spec fn div_req(self, r: Vtx3<T>) -> bool {
        self.x.div_req(r.x) && self.y.div_req(r.y) && self.z.div_req(r.z)
    }

    open spec fn div_spec(self, r: Vtx3<T>) -> Vtx3<T> {
        Vtx3 { x: self.x.div_spec(r.x), y: self.y.div_spec(r.y), z: self.z.div_spec(r.z) }
    }
}

impl<T: Copy + std::ops::Div<Output = T>> std::ops::Div<T> for Vtx3<T> {
    type Output = Vtx3<T>;

    fn div(self, r: T) -> (s: Vtx3<T>) {
        Vtx3 { x: self.x / r, y: self.y / r, z: self.z / r }
    }
}

impl<T: Copy + std::ops::Div<Output = T>> vstd::std_specs::ops::DivSpecImpl<T> for Vtx3<T> {
    open spec fn obeys_div_spec() -> bool {
        <T as DivSpec>::obeys_div_spec()
    }

    open spec fn div_req(self, r: T) -> bool {
        self.x.div_req(r) && self.y.div_req(r) && self.z.div_req(r)
    }

    open spec fn div_spec(self, r: T) -> Vtx3<T> {
        Vtx3 { x: self.x.div_spec(r), y: self.y.div_spec(r), z: self.z.div_spec(r) }
    }
}

/// Integer division undoes an exact multiplication.
proof fn lemma_mul_div_i64(x: i64, a: i64)
    requires
        a != 0,
        x.mul_req(a),
    ensures
        x.mul_spec(a).div_req(a),
        x.mul_spec(a).div_spec(a) == x,
{
    let p = x * a;
    if a == -1 {
        assert(p == -x);
    }
    assert(p / (a as int) == x) by (nonlinear_arith)
        requires
            a != 0,
            p == x * a,
    ;
    assert((-p) / (a as int) == -x) by (nonlinear_arith)
        requires
            a != 0,
            p == x * a,
    ;
}

/// Over exact integer scalars (`i64`), scaling a plane vector by a
/// non-zero scalar and dividing by it gives back the vector, wherever the
/// scaling stays in range.
pub proof fn lemma_scale_unscale_i64(v: Vtx2<i64>, a: i64)
    requires
        a != 0,
        v.mul_req(a),
    ensures
        v.mul_spec(a).div_req(a),
        v.mul_spec(a).div_spec(a) == v,
{
    lemma_mul_div_i64(v.x, a);
    lemma_mul_div_i64(v.y, a);
}

} // verus!
