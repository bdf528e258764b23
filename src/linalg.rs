//! Linear-algebra value types.
pub mod tuple4;
