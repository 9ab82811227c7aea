//! The error taxonomy: out-of-bounds coordinates, undecodable templates, and
//! failed placements.

use vstd::prelude::*;

verus! {

/// A coordinate pair that, after shifting into the service's tiled space,
/// falls outside all six tiles. Carries the offending shifted coordinates.
#[derive(Clone, Copy, Debug, PartialEq, Eq, Structural)]
pub struct OutOfBoundsError {
    /// The shifted x coordinate that fell outside every tile.
    pub x: i64,
    /// The shifted y coordinate that fell outside every tile.
    pub y: i64,
}

/// The template image could not be decoded into a pixel buffer.
#[derive(Clone, Copy, Debug, PartialEq, Eq, Structural)]
pub struct DecodeError;

/// A placement call failed: either the transport failed outright, or the
/// service answered with a non-success HTTP status.
#[derive(Clone, Copy, Debug, PartialEq, Eq, Structural)]
pub enum PlacementError {
    /// The request never produced an HTTP status.
    Transport,
    /// The service answered with the carried non-success status code.
    Status(u16),
}

} // verus!
