//! Exact decimal arithmetic on non-negative numbers of unbounded size.
//!
//! A value is a mantissa, an arbitrary-precision natural number, over a
//! scale of `10^d` for `d` decimal places, `d` from 0 to 31. The number of
//! decimal places is either part of the type (`c::ECs`) or carried by the
//! value (`d::EDs`). Results that are not exact are rounded toward zero.
//!
//! `model` says what each operation computes, on natural numbers; `laws`
//! proves what follows for all values; `big` states what is assumed of
//! `num-bigint`.

pub mod big;
pub mod c;
pub mod c_arith;
pub mod d;
pub mod d_arith;
pub mod error;
pub mod interchange;
pub mod laws;
pub mod model;
pub mod order;
pub mod scale;
