use vstd::prelude::*;

pub mod text;
pub mod strmap;
pub mod protocol;
pub mod model;
pub mod engine;
pub mod laws;
pub mod ticks;
pub mod action_laws;

verus! {

} // verus!
