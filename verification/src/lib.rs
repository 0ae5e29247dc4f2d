//! symi: symbolic C expressions and boundary-condition test fixtures.
//!
//! The crate models typed C variables and literals as symbolic values,
//! composes them into binary expression trees, derives type-range-aware
//! boundary constraints for pairs of variables, and renders guarded
//! assertion blocks into the textual body of a test function for a source
//! analysis tool.
#![allow(non_snake_case)]

pub mod BinOp;
pub mod DataType;
pub mod Draw;
pub mod Expr;
pub mod Symbol;
pub mod generate;
pub mod Test;
pub mod utils;
pub mod text;
