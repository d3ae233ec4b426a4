//! HTTPS support for the broker's own URL and for daemon connections. A
//! broker is built with TLS support or without it; both variants are here.
use vstd::prelude::*;

pub mod disabled;
pub mod enabled;

verus! {

} // verus!
