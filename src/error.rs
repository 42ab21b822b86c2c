//! Failures of the capture, crop and annotate steps.

use vstd::prelude::*;

verus! {

#[derive(Clone, Copy, Debug, PartialEq, Eq, Structural)]
pub enum ScreenError {
    /// The list of displays is empty.
    NoDisplaysFound,
    /// The capture of the display at this index could not be decoded or does
    /// not fit the display's place on the canvas.
    CaptureFailed { display_index: usize },
    /// The current image bytes are not a decodable PNG.
    DecodeFailed,
    /// The encoder refused the image.
    EncodeFailed,
    /// After the border inset the selection has no width or no height.
    EmptyOrInvertedSelection,
    /// A zero-length segment where a direction is needed, or a polygon whose
    /// first and last corner coincide.
    DegenerateGeometry,
    /// A coordinate, or an image side, lies beyond what the drawing routines
    /// accept.
    CoordinatesOutOfRange,
    /// The composed canvas would not fit in memory.
    CanvasTooLarge,
}

} // verus!
