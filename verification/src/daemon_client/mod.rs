use vstd::prelude::*;

pub mod connection;
pub mod error;

verus! {

} // verus!
