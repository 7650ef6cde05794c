//! Pixel formats and their tags on the wire.

use vstd::prelude::*;

verus! {

/// Pixel layout of a stream. Frames are carried as opaque bytes; the format
/// only travels as a one-byte tag so that both ends agree on how to read them.
#[derive(Copy, Clone, Debug, PartialEq, Eq, Structural)]
pub enum Format {
    /// 8-bit luma
    Luma8,
    /// 16-bit luma
    Luma16,
    /// 8-bit luma with alpha
    LumaA8,
    /// 16-bit luma with alpha
    LumaA16,
    /// 24-bit RGB
    Rgb8,
    /// 48-bit RGB
    Rgb16,
    /// 32-bit RGBA
    Rgba8,
    /// 64-bit RGBA
    Rgba16,
    /// Motion JPEG
    MJpeg,
}

impl Format {
    /// The tag that stands for this format on the wire.
    pub open spec fn tag(self) -> u8 {
        match self {
            Format::Luma8 => 0,
            Format::Luma16 => 1,
            Format::LumaA8 => 2,
            Format::LumaA16 => 3,
            Format::Rgb8 => 4,
            Format::Rgb16 => 5,
            Format::Rgba8 => 6,
            Format::Rgba16 => 7,
            Format::MJpeg => 64,
        }
    }

    /// The format that a tag stands for, if any.
    pub open spec fn of_tag(tag: u8) -> Option<Format> {
        if tag == 0 {
            Some(Format::Luma8)
        } else if tag == 1 {
            Some(Format::Luma16)
        } else if tag == 2 {
            Some(Format::LumaA8)
        } else if tag == 3 {
            Some(Format::LumaA16)
        } else if tag == 4 {
            Some(Format::Rgb8)
        } else if tag == 5 {
            Some(Format::Rgb16)
        } else if tag == 6 {
            Some(Format::Rgba8)
        } else if tag == 7 {
            Some(Format::Rgba16)
        } else if tag == 64 {
            Some(Format::MJpeg)
        } else {
            None
        }
    }

    /// Encodes the format as its wire tag.
    pub fn to_wire(self) -> (tag: u8)
        ensures
            tag == self.tag(),
    {
        match self {
            Format::Luma8 => 0,
            Format::Luma16 => 1,
            Format::LumaA8 => 2,
            Format::LumaA16 => 3,
            Format::Rgb8 => 4,
            Format::Rgb16 => 5,
            Format::Rgba8 => 6,
            Format::Rgba16 => 7,
            Format::MJpeg => 64,
        }
    }

    /// Decodes a wire tag; tags outside the table give `None`.
    pub fn from_wire(tag: u8) -> (format: Option<Format>)
        ensures
            format == Format::of_tag(tag),
            format matches Some(f) ==> f.tag() == tag,
    {
        match tag {
            0 => Some(Format::Luma8),
            1 => Some(Format::Luma16),
            2 => Some(Format::LumaA8),
            3 => Some(Format::LumaA16),
            4 => Some(Format::Rgb8),
            5 => Some(Format::Rgb16),
            6 => Some(Format::Rgba8),
            7 => Some(Format::Rgba16),
            64 => Some(Format::MJpeg),
            _ => None,
        }
    }
}

/// Every format is recovered from its own tag, and a tag that decodes at all
/// is the tag of the format it decodes to.
pub proof fn format_tag_roundtrip(format: Format, tag: u8)
    ensures
        Format::of_tag(format.tag()) == Some(format),
        Format::of_tag(tag) matches Some(f) ==> f.tag() == tag,
{
}

} // verus!
