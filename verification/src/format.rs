//! Pixel format codes and the negotiated capture format.

use vstd::prelude::*;

verus! {

/// A four-byte pixel format code; opaque, compared by exact byte equality.
#[derive(Clone, Copy, Debug, PartialEq, Eq, Hash)]
pub struct FourCC {
    pub repr: [u8; 4],
}

impl View for FourCC {
    type V = Seq<u8>;

    open spec fn view(&self) -> Seq<u8> {
        self.repr@
    }
}

impl DeepView for FourCC {
    type V = Seq<u8>;

    open spec fn deep_view(&self) -> Seq<u8> {
        self.repr@
    }
}

impl FourCC {
    /// Builds a code from a raw four-byte sequence.
    pub fn new(repr: &[u8; 4]) -> (r: FourCC)
        ensures
            r@ == repr@,
    {
        FourCC { repr: *repr }
    }
}

/// A negotiated capture format: geometry, pixel format code and the
/// platform-reported stride (bytes per row, which may exceed the packed
/// row width due to alignment).
#[derive(Clone, Copy, Debug, PartialEq, Eq)]
pub struct Format {
    pub width: u32,
    pub height: u32,
    pub fourcc: FourCC,
    pub stride: usize,
}

impl Format {
    /// A format request: geometry and pixel format, with no stride
    /// (the stride is always platform-derived, never requested).
    pub fn new(width: u32, height: u32, fourcc: FourCC) -> (r: Format)
        ensures
            r.width == width,
            r.height == height,
            r.fourcc@ == fourcc@,
            r.stride == 0,
    {
        Format { width, height, fourcc, stride: 0 }
    }

    /// A format as the platform reports it, stride included.
    pub fn with_stride(width: u32, height: u32, fourcc: FourCC, stride: usize) -> (r: Format)
        ensures
            r.width == width,
            r.height == height,
            r.fourcc@ == fourcc@,
            r.stride == stride,
    {
        Format { width, height, fourcc, stride }
    }

    /// The triple that a format change request hands to the platform.
    /// The pixel format code is passed on verbatim: format negotiation
    /// never substitutes another code for the requested one, and it
    /// never requests a stride.
    pub fn request(&self) -> (r: (u32, u32, FourCC))
        ensures
            r.0 == self.width,
            r.1 == self.height,
            r.2@ == self.fourcc@,
    {
        (self.width, self.height, self.fourcc)
    }
}

} // verus!
