//! Building signed and public REST requests for a futures exchange API.
use vstd::prelude::*;

pub mod client;
pub mod endpoint;
pub mod error;
pub mod query;
pub mod request;
pub mod signing;
pub mod text;

verus! {

} // verus!
