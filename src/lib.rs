//! A cache for the active committees and the storage prices of a storage network whose
//! membership and prices change only at epoch boundaries.
//!
//! - `committee`: the committees, and when two of them differ enough to tell the clients.
//! - `refresh`: the configuration, the adaptive refresh timer, and the refresher as a state
//!   machine driven by timer ticks, client requests and fetch outcomes.
//! - `handle`: the requests that clients send to the refresher, and the handle they send them
//!   through.
use vstd::prelude::*;

pub mod committee;
pub mod handle;
pub mod refresh;

verus! {

} // verus!
