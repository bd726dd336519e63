use vstd::prelude::*;

pub mod entry;
pub mod errors;
pub mod mirror;
pub mod plan;
pub mod policy;
pub mod replicate;
pub mod text;
pub mod util;

verus! {

} // verus!
