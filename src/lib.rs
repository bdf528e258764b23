//! Homogeneous-coordinate tuples for a ray tracer: points, vectors and the
//! exact, bit-level parts of their algebra.
pub mod linalg;
