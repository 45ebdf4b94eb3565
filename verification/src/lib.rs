//! A programmer's calculator: a value held at a chosen word size, shown and
//! typed in a chosen base, combined with arithmetic and bitwise operators.

pub mod radix;
pub mod state;
pub mod frontend;
pub mod laws;
pub mod results;
pub mod panel_laws;
