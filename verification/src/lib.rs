//! Small numeric and text utilities with machine-checked contracts.
//!
//! * [`parity`]: whether a signed integer is even.
//! * [`fibonacci`]: the Fibonacci sequence, computed by recursion and by
//!   iteration, with the proof that both agree.
//! * [`text`]: lengths and searches counted in Unicode scalar values.
//! * [`rect`]: area and perimeter of an integer rectangle.

pub mod fibonacci;
pub mod parity;
pub mod rect;
pub mod text;
