use vstd::prelude::*;

pub mod detect;
pub mod host;
pub mod hub;
pub mod laws;
pub mod snapshot;

verus! {

} // verus!
