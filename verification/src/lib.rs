//! A verified core for an HLS (HTTP Live Streaming) asset pipeline.
//!
//! The library covers three responsibilities: generating the opaque
//! 11-character identifier that names an asset, driving the external
//! transcoder that materialises the asset on disk, and the
//! security-sensitive mapping from an inbound request name to a file
//! location inside the correct asset directory.

pub mod conversion;
pub mod identifier;
pub mod playback;
pub mod resolver;

use vstd::prelude::*;

verus! {

} // verus!
