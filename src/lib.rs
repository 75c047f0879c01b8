use vstd::prelude::*;

pub mod child;
pub mod error;
pub mod guard;
pub mod layers;
pub mod overlay;
pub mod paths;
pub mod strategy;

verus! {

} // verus!
