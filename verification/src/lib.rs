//! Boundary-conversion layer between a dynamically typed host runtime and the
//! diffai diff core.
//!
//! The library translates dynamic host values into a canonical tree value
//! model, translates the diff core's structured results back into dynamic
//! host values, and builds a typed options record from a loosely structured
//! configuration mapping.

pub mod codec;
pub mod convert;
pub mod errors;
pub mod options;
pub mod value;

use vstd::prelude::*;

verus! {

/// Version identifier of this bridge, exposed read-only.
pub const VERSION: &'static str = "0.4.0";

} // verus!
