//! A small calculator core: wrapping integer arithmetic, validated division,
//! integer parsing of input lines, and the dispatch of a menu choice to one
//! operation.

pub mod arith;
pub mod dispatch;
pub mod error;
pub mod report;
pub mod text;
