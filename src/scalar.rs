use vstd::prelude::*;
use vstd::std_specs::convert::FromSpec;
use vstd::std_specs::ops::{AddSpec, MulSpec, SubSpec};

verus! {

/// The scalar type's zero, as converted from the integer zero.
pub open spec fn zero<T: From<i8>>() -> T {
    <T as FromSpec<i8>>::from_spec(0i8)
}

/// The scalar type's one, as converted from the integer one.
pub open spec fn one<T: From<i8>>() -> T {
    <T as FromSpec<i8>>::from_spec(1i8)
}

// Sums and differences of products, in the scalar type's own arithmetic as
// its operator specifications state it. `*_req` says that each operation on
// the way is allowed (for machine integers: does not overflow).

pub open spec fn sum2<T: Copy + std::ops::Add<Output = T> + std::ops::Mul<Output = T>>(
    a: T,
    b: T,
    c: T,
    d: T,
) -> T {
    a.mul_spec(b).add_spec(c.mul_spec(d))
}

pub open spec fn sum2_req<T: Copy + std::ops::Add<Output = T> + std::ops::Mul<Output = T>>(
    a: T,
    b: T,
    c: T,
    d: T,
) -> bool {
    &&& a.mul_req(b)
    &&& c.mul_req(d)
    &&& a.mul_spec(b).add_req(c.mul_spec(d))
}

pub open spec fn diff2<T: Copy + std::ops::Sub<Output = T> + std::ops::Mul<Output = T>>(
    a: T,
    b: T,
    c: T,
    d: T,
) -> T {
    a.mul_spec(b).sub_spec(c.mul_spec(d))
}

pub open spec fn diff2_req<T: Copy + std::ops::Sub<Output = T> + std::ops::Mul<Output = T>>(
    a: T,
    b: T,
    c: T,
    d: T,
) -> bool {
    &&& a.mul_req(b)
    &&& c.mul_req(d)
    &&& a.mul_spec(b).sub_req(c.mul_spec(d))
}

pub open spec fn sum3<T: Copy + std::ops::Add<Output = T> + std::ops::Mul<Output = T>>(
    a: T,
    b: T,
    c: T,
    d: T,
    e: T,
    f: T,
) -> T {
    sum2(a, b, c, d).add_spec(e.mul_spec(f))
}

pub open spec fn sum3_req<T: Copy + std::ops::Add<Output = T> + std::ops::Mul<Output = T>>(
    a: T,
    b: T,
    c: T,
    d: T,
    e: T,
    f: T,
) -> bool {
    &&& sum2_req(a, b, c, d)
    &&& e.mul_req(f)
    &&& sum2(a, b, c, d).add_req(e.mul_spec(f))
}

/// `a * b + c * d`.
pub fn mul_add2<T: Copy + std::ops::Add<Output = T> + std::ops::Mul<Output = T>>(
    a: T,
    b: T,
    c: T,
    d: T,
) -> (r: T)
    requires
        <T as MulSpec>::obeys_mul_spec(),
        sum2_req(a, b, c, d),
    ensures
        <T as AddSpec>::obeys_add_spec() ==> r == sum2(a, b, c, d),
{
    a * b + c * d
}

/// `a * b - c * d`.
pub fn mul_sub2<T: Copy + std::ops::Sub<Output = T> + std::ops::Mul<Output = T>>(
    a: T,
    b: T,
    c: T,
    d: T,
) -> (r: T)
    requires
        <T as MulSpec>::obeys_mul_spec(),
        diff2_req(a, b, c, d),
    ensures
        <T as SubSpec>::obeys_sub_spec() ==> r == diff2(a, b, c, d),
{
    a * b - c * d
}

/// `a * b + c * d + e * f`.
pub fn mul_add3<T: Copy + std::ops::Add<Output = T> + std::ops::Mul<Output = T>>(
    a: T,
    b: T,
    c: T,
    d: T,
    e: T,
    f: T,
) -> (r: T)
    requires
        <T as MulSpec>::obeys_mul_spec(),
        <T as AddSpec>::obeys_add_spec(),
        sum3_req(a, b, c, d, e, f),
    ensures
        r == sum3(a, b, c, d, e, f),
{
    a * b + c * d + e * f
}

} // verus!
