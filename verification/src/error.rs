//! The errors the tokenization pipeline can report to its caller.

use vstd::prelude::*;

verus! {

/// What went wrong while preparing a token. `InvalidTileNumber` is raised
/// when the requested tile selector is a number outside 1 through 4;
/// `InvalidFrame` when the requested frame resource cannot be resolved.
#[derive(Clone, Copy, Debug, PartialEq, Eq, Structural)]
pub enum ImageError {
    InvalidTileNumber,
    InvalidFrame,
}

impl ImageError {
    /// A human-readable description of the failure.
    pub fn message(&self) -> (r: &'static str)
        ensures
            self is InvalidTileNumber ==> r@ == "Invalid tile number. You must select 1 - 4, or leave this blank for upscaled images"@,
            self is InvalidFrame ==> r@ == "Invalid frame. We searched for border-.png in the assets folder but found nothing."@,
    {
        match self {
            ImageError::InvalidTileNumber => "Invalid tile number. You must select 1 - 4, or leave this blank for upscaled images",
            ImageError::InvalidFrame => "Invalid frame. We searched for border-.png in the assets folder but found nothing.",
        }
    }
}

} // verus!
