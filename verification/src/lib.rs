//! Turns a grid-tiled source image into a single square, circularly masked
//! "token" image: pick a region (the whole image or one of four quadrants),
//! resize it to the requested edge length, cut it into a circle by clearing
//! the alpha channel outside an inscribed disc, and optionally composite a
//! decorative frame on top.
//!
//! Decoding, encoding and frame-asset lookup are left to the caller; the
//! pipeline here works on plain RGBA pixel buffers.

pub mod pixel;
pub mod error;
pub mod tiles;
pub mod intsqrt;
pub mod mask;
pub mod extract;
pub mod compose;
pub mod pipeline;

pub use error::ImageError;
pub use pixel::PixelBuffer;
pub use tiles::MidJourneyTiles;
pub use tiles::get_tile_coordinates;
pub use extract::extract_region;
pub use mask::circular_mask;
pub use compose::composite_border;
pub use pipeline::tokenize;
