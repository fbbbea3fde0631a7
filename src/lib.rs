//! A small algebra of plane and space vectors and matrices, generic over the
//! scalar type, and the decisions of a terminal analogue clock built on it:
//! how key presses resize the clock's area, where that area is placed in the
//! terminal, and what local time of day a Unix timestamp reads as.

pub mod clock;
pub mod matrix;
pub mod ops;
pub mod quaternion;
pub mod scalar;
pub mod vector;
pub mod viewport;
