//! A library for painting a template image onto a shared, tiled pixel canvas.
//!
//! The canvas is partitioned into six 1000x1000 tiles in a 3x2 layout; each
//! placement writes one pixel of a fixed sixteen-color palette. The modules
//! cover the palette, the coordinate mapping into tiles, the extraction of
//! placement intents from a decoded image, the placement payload, and the
//! bookkeeping that schedules placements over a pool of accounts.

pub mod errors;
pub mod palette;
pub mod pixel;
pub mod scheduler;
pub mod template;
