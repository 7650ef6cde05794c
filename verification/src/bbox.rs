//! The bounding box that producers and viewers agree on for overlays.

use vstd::prelude::*;

verus! {

/// A rectangle to draw over a picture. Producers may list such boxes in the
/// metadata of a frame under the key `.bboxes`; viewers that know the
/// convention draw them, the library itself passes metadata on unread.
#[derive(Clone, Copy, Debug, PartialEq, Eq)]
pub struct BoundingBox {
    /// The color of the bounding box in RGB format
    pub color: [u8; 3],
    /// The x coordinate of the top-left corner
    pub x: u16,
    /// The y coordinate of the top-left corner
    pub y: u16,
    /// The width of the bounding box
    pub width: u16,
    /// The height of the bounding box
    pub height: u16,
}

} // verus!
