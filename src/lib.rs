use vstd::prelude::*;

pub mod mode;
pub mod placer;
pub mod session;

verus! {

} // verus!
