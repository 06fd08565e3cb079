//! Acquisition and build orchestration for a large native map-rendering
//! dependency.
//!
//! The library decides where the native source tree comes from (an explicit
//! override, a vendored checkout, a fresh pinned clone, or a precompiled
//! artifact download), validates pinned revisions, plans the external build
//! system invocations, parses the generated dependency manifest into link
//! directives, and assembles the header search paths the bridge compiler
//! needs. Every decision is a verified function from plain values to plain
//! values; the unverified shell around it performs the processes, network
//! transfers and filesystem walks and feeds their observations back in.

use vstd::prelude::*;

pub mod artifact;
pub mod backend;
pub mod build_driver;
pub mod fetch;
pub mod include_dirs;
pub mod manifest;
pub mod options;
pub mod resolve;
pub mod revision;
pub mod text;

verus! {

/// Marker for a renderer configured to produce one still image of an
/// arbitrary viewport.
pub struct Static;

/// Marker for a renderer configured to produce one still image of a single
/// map tile.
pub struct Tile;

} // verus!
