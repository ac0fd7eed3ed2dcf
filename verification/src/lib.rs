//! A nine-bit unsigned quantity: an integer in `0..=511` that keeps its range
//! by construction, with conversions into the wider primitive integers.

pub mod value;
pub mod widen;
pub mod order;
pub mod decimal;

pub use value::U9;
pub use value::U9_MAX;
