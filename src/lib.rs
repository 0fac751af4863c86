use vstd::prelude::*;

pub mod backend;
pub mod icons;
pub mod laws;
pub mod models;
pub mod operation;
pub mod parsers;
pub mod progress;
pub mod queries;
pub mod text;

verus! {

} // verus!
