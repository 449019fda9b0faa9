//! A typed client core for a chat service's HTTP API: request encoders,
//! the embedded-error reply protocol, and the server settings cache.

use vstd::prelude::*;

pub mod config;
pub mod describe;
pub mod error;
pub mod messages;
pub mod narrow;
pub mod organizations;
pub mod request;
pub mod text;
pub mod wire;

verus! {

/// The feature level this crate is currently compatible with.
///
/// Features introduced at or before this number are implemented.
pub const FEATURE_LEVEL: u32 = 0;

} // verus!
