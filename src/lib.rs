use vstd::prelude::*;

pub mod dispatcher;
pub mod error;
pub mod inventory;
pub mod progress;
pub mod queue;
pub mod repair;
pub mod service;

verus! {

/// An identifier of a downloadable content item.
pub type ItemId = u64;

} // verus!
