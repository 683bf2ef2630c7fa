//! Caches, event conversion and login decisions for a QQ protocol client.
use vstd::prelude::*;

pub mod cache;
pub mod connector;
pub mod delivery;
pub mod element;
pub mod events;
pub mod login;
pub mod model;
pub mod receipt;
pub mod text;

verus! {

} // verus!
