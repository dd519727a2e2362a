use vstd::prelude::*;

pub mod contract;
pub mod decimal;
pub mod error;
pub mod laws;
pub mod msg;
pub mod rates;
pub mod state;

verus! {

} // verus!
