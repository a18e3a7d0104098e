//! What the operations of the display are for.
//!
//! Each law here speaks of what a function gives back, whatever way it takes to get there. Numbers
//! are spoken of as what they stand for: `single` and `wide` say which real number a single and a
//! double precision number is. The evaluator is taken to calculate without rounding, save where the
//! law is about rounding.

pub mod drawing;
pub mod errors;
pub mod exactness;
pub mod fonts;
pub mod layout;
pub mod resizing;
pub mod rounding;
pub mod starting;
