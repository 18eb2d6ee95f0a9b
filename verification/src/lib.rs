use vstd::prelude::*;

pub mod config;
pub mod driver;
pub mod sql;
pub mod table;
pub mod workflow;

verus! {

/// A quantity drawn for an inventory row is always kept inside this
/// inclusive range.
pub const QUANTITY_MIN: i32 = 10;

/// Upper end of the quantity range.
pub const QUANTITY_MAX: i32 = 50;

} // verus!
