use vstd::prelude::*;

pub mod batch;
pub mod decoder;
pub mod error;
pub mod manager;
pub mod prompt;
pub mod session;

verus! {

} // verus!
