// A small physics calculator over fixed-point numbers.
//
// Every quantity is carried as a signed 128-bit integer counting micro-units:
// the integer `x` stands for the value `x / 1_000_000`. All formulas are
// evaluated exactly over these integers, with division truncating toward
// zero, and every function carries a contract that pins its result down.

pub mod fixed;
pub mod text;
pub mod calc;
pub mod summary;
pub mod simple;
pub mod laws;
