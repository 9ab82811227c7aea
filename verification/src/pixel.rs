//! Mapping global canvas coordinates into the service's six 1000x1000 tiles,
//! building the fixed-shape placement payload, and classifying the outcome of
//! a placement call.
//!
//! The service recenters the canvas: a global coordinate is shifted by
//! (+1500, +1000) into a positive tiled space. The tile-local coordinate is
//! the shifted value modulo 1000; the tile index is chosen by which of six
//! bands, scanned row-major over a 3x2 layout, the shifted (unmodded) pair
//! falls into. Both are derived from the same shifted values.

use vstd::prelude::*;

use crate::errors::{OutOfBoundsError, PlacementError};
use crate::palette::{color_index, Color};

verus! {

/// The operation name of the placement mutation.
pub const OPERATION_NAME: &'static str = "setPixel";

/// The action name carried inside the placement variables.
pub const ACTION_NAME: &'static str = "r/replace:set_pixel";

/// The static query document sent with every placement.
pub const QUERY: &'static str = "mutation setPixel($input: ActInput!) {\n  act(input: $input) {\n    data {\n      ... on BasicMessage {\n        id\n        data {\n          ... on GetUserCooldownResponseMessageData {\n            nextAvailablePixelTimestamp\n            __typename\n          }\n          ... on SetPixelResponseMessageData {\n            timestamp\n            __typename\n          }\n          __typename\n        }\n        __typename\n      }\n      __typename\n    }\n    __typename\n  }\n}\n";

/// The tile-local coordinate for a shifted global coordinate: the value
/// modulo 1000, always in 0..999.
pub open spec fn local_coord(shifted: int) -> int {
    shifted % 1000
}

/// The tile index for a shifted coordinate pair: the six bands of the 3x2
/// tile layout, scanned row-major, each band inclusive at its upper edge.
/// A pair past the last band (x > 3000 or y > 2000 after the shift) is on
/// no tile.
pub open spec fn tile_of(sx: int, sy: int) -> Option<int> {
    if sx <= 1000 && sy <= 1000 {
        Some(0int)
    } else if sx <= 2000 && sy <= 1000 {
        Some(1int)
    } else if sx <= 3000 && sy <= 1000 {
        Some(2int)
    } else if sx <= 1000 && sy <= 2000 {
        Some(3int)
    } else if sx <= 2000 && sy <= 2000 {
        Some(4int)
    } else if sx <= 3000 && sy <= 2000 {
        Some(5int)
    } else {
        None
    }
}

/// A tile-local coordinate pair, as carried in the placement payload.
#[derive(Clone, Copy, Debug, PartialEq, Eq, Structural)]
pub struct Coordinates {
    /// The tile-local x coordinate, in 0..999.
    pub x: i32,
    /// The tile-local y coordinate, in 0..999.
    pub y: i32,
}

/// Reduces a shifted coordinate to its tile-local value, `shifted mod 1000`
/// with a non-negative result.
fn local_in_tile(shifted: i64) -> (r: i32)
    requires
        -3_000_000_000 <= shifted <= 3_000_000_000,
    ensures
        r == local_coord(shifted as int),
        0 <= r < 1000,
{
    let n: i64 = shifted + 3_000_000_000;
    let m: i64 = n % 1000;
    proof {
        vstd::arithmetic::div_mod::lemma_mod_multiples_vanish(3_000_000, shifted as int, 1000);
    }
    m as i32
}

impl Coordinates {
    /// Maps a global coordinate pair to its tile-local coordinates: shift by
    /// (+1500, +1000), then take each shifted value modulo 1000. Total over
    /// all inputs; the tile-band check is the separate
    /// [`coordinates_to_canvas`].
    pub fn new(x: i32, y: i32) -> (r: Result<Coordinates, OutOfBoundsError>)
        ensures
            r is Ok,
            r->Ok_0.x == local_coord(x + 1500),
            r->Ok_0.y == local_coord(y + 1000),
            0 <= r->Ok_0.x < 1000,
            0 <= r->Ok_0.y < 1000,
    {
        let sx: i64 = x as i64 + 1500;
        let sy: i64 = y as i64 + 1000;
        Ok(Coordinates { x: local_in_tile(sx), y: local_in_tile(sy) })
    }
}

/// Resolves the tile (canvas) index of a global coordinate pair: shift by
/// (+1500, +1000), then scan the six bands row-major. Fails with
/// [`OutOfBoundsError`], carrying the shifted pair, exactly when the pair is
/// on no tile.
pub fn coordinates_to_canvas(x: i32, y: i32) -> (r: Result<i32, OutOfBoundsError>)
    ensures
        r is Ok <==> tile_of(x + 1500, y + 1000) is Some,
        r is Ok ==> tile_of(x + 1500, y + 1000) == Some(r->Ok_0 as int),
        r is Err ==> r->Err_0 == (OutOfBoundsError { x: (x + 1500) as i64, y: (y + 1000) as i64 }),
{
    let sx: i64 = x as i64 + 1500;
    let sy: i64 = y as i64 + 1000;

    if sx <= 1000 && sy <= 1000 {
        return Ok(0);
    }
    if sx <= 2000 && sy <= 1000 {
        return Ok(1);
    }
    if sx <= 3000 && sy <= 1000 {
        return Ok(2);
    }
    if sx <= 1000 && sy <= 2000 {
        return Ok(3);
    }
    if sx <= 2000 && sy <= 2000 {
        return Ok(4);
    }
    if sx <= 3000 && sy <= 2000 {
        return Ok(5);
    }

    Err(OutOfBoundsError { x: sx, y: sy })
}

/// The innermost payload: tile-local coordinate, palette index, tile index.
#[derive(Clone, Copy, Debug, PartialEq, Eq, Structural)]
pub struct PixelMessageData {
    /// The tile-local coordinate of the placement.
    pub coordinate: Coordinates,
    /// The palette index of the color being placed.
    pub color_index: i32,
    /// The index of the tile the placement lands on.
    pub canvas_index: i32,
}

/// The variables' input object: the fixed action name and the pixel data.
#[derive(Clone, Copy, Debug, PartialEq, Eq)]
pub struct PixelQueryVariablesInput {
    /// The fixed action name of the placement mutation.
    pub action_name: &'static str,
    /// The placement data.
    pub pixel_message_data: PixelMessageData,
}

/// The variables object of the placement mutation.
#[derive(Clone, Copy, Debug, PartialEq, Eq)]
pub struct PixelQueryVariables {
    /// The single input object.
    pub input: PixelQueryVariablesInput,
}

/// The full fixed-shape placement request: operation name, variables, and
/// the static query document.
#[derive(Clone, Copy, Debug, PartialEq, Eq)]
pub struct PixelQuery {
    /// The operation name of the mutation.
    pub operation_name: &'static str,
    /// The variables of the mutation.
    pub variables: PixelQueryVariables,
    /// The static query document.
    pub query: &'static str,
}

impl PixelQuery {
    /// Builds the placement payload for one global coordinate pair and color.
    /// Succeeds exactly when the shifted pair falls on one of the six tiles;
    /// the coordinate and tile index are both derived from the same shifted
    /// values.
    pub fn new(x: i32, y: i32, color: Color) -> (r: Result<PixelQuery, OutOfBoundsError>)
        ensures
            r is Ok <==> tile_of(x + 1500, y + 1000) is Some,
            r is Ok ==> {
                let q = r->Ok_0;
                &&& q.operation_name@ == OPERATION_NAME@
                &&& q.query@ == QUERY@
                &&& q.variables.input.action_name@ == ACTION_NAME@
                &&& q.variables.input.pixel_message_data.coordinate.x == local_coord(x + 1500)
                &&& q.variables.input.pixel_message_data.coordinate.y == local_coord(y + 1000)
                &&& q.variables.input.pixel_message_data.color_index == color_index(color)
                &&& tile_of(x + 1500, y + 1000) == Some(
                    q.variables.input.pixel_message_data.canvas_index as int,
                )
            },
            r is Err ==> r->Err_0 == (OutOfBoundsError {
                x: (x + 1500) as i64,
                y: (y + 1000) as i64,
            }),
    {
        let canvas_index = match coordinates_to_canvas(x, y) {
            Ok(c) => c,
            Err(e) => {
                return Err(e);
            },
        };
        let coordinate = match Coordinates::new(x, y) {
            Ok(c) => c,
            Err(e) => {
                return Err(e);
            },
        };
        Ok(PixelQuery {
            operation_name: OPERATION_NAME,
            variables: PixelQueryVariables {
                input: PixelQueryVariablesInput {
                    action_name: ACTION_NAME,
                    pixel_message_data: PixelMessageData {
                        coordinate,
                        color_index: color.index(),
                        canvas_index,
                    },
                },
            },
            query: QUERY,
        })
    }
}

/// Classifies an HTTP status code as a placement outcome: a 2xx status is
/// success, anything else is a [`PlacementError`] carrying the status.
pub fn classify_status(status: u16) -> (r: Result<(), PlacementError>)
    ensures
        r is Ok <==> 200 <= status <= 299,
        r is Err ==> r->Err_0 == PlacementError::Status(status),
{
    if 200 <= status && status <= 299 {
        Ok(())
    } else {
        Err(PlacementError::Status(status))
    }
}

/// The tile mapping is a pure function of its input: any two results derived
/// from equal coordinate pairs are equal, and every tile-local coordinate is
/// in 0..999.
pub proof fn lemma_tile_mapping_deterministic(x: int, y: int, r1: (int, int, Option<int>), r2: (int, int, Option<int>))
    requires
        r1 == (local_coord(x + 1500), local_coord(y + 1000), tile_of(x + 1500, y + 1000)),
        r2 == (local_coord(x + 1500), local_coord(y + 1000), tile_of(x + 1500, y + 1000)),
    ensures
        r1 == r2,
        0 <= r1.0 < 1000,
        0 <= r1.1 < 1000,
{
}

} // verus!

