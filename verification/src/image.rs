//! Image boxes and the built-in image-metrics reader.
//!
//! Raw image bytes are opaque to the layout engine; only their intrinsic
//! pixel size matters.  The built-in metrics reader understands PNG
//! headers; any other payload is refused with `UnsupportedImageFormat`.

use vstd::prelude::*;

use crate::error::Error;
use crate::geometry::spec_scaled_width;
use crate::geometry::scale_to_height;

verus! {

/// The big-endian 32-bit integer stored at offset `i` of `b`.
pub open spec fn be32(b: Seq<u8>, i: int) -> int {
    b[i] * 0x100_0000 + b[i + 1] * 0x1_0000 + b[i + 2] * 0x100 + b[i + 3]
}

/// `b` starts with the PNG signature followed by an IHDR chunk, so its
/// intrinsic size stands at offsets 16 and 20.
pub open spec fn is_png(b: Seq<u8>) -> bool {
    &&& b.len() >= 24
    &&& b[0] == 137u8
    &&& b[1] == 80u8
    &&& b[2] == 78u8
    &&& b[3] == 71u8
    &&& b[4] == 13u8
    &&& b[5] == 10u8
    &&& b[6] == 26u8
    &&& b[7] == 10u8
    &&& b[12] == 73u8
    &&& b[13] == 72u8
    &&& b[14] == 68u8
    &&& b[15] == 82u8
}

/// The intrinsic pixel width and height of a PNG image.
///
/// Succeeds exactly on byte sequences that carry the PNG signature and an
/// IHDR chunk; anything else is `UnsupportedImageFormat`.
pub fn png_dimensions(bytes: &Vec<u8>) -> (r: Result<(u32, u32), Error>)
    ensures
        match r {
            Ok(wh) => {
                &&& is_png(bytes@)
                &&& wh.0 == be32(bytes@, 16)
                &&& wh.1 == be32(bytes@, 20)
            },
            Err(e) => e == Error::UnsupportedImageFormat && !is_png(bytes@),
        },
{
    if bytes.len() < 24 {
        return Err(Error::UnsupportedImageFormat);
    }
    if bytes[0] != 137 || bytes[1] != 80 || bytes[2] != 78 || bytes[3] != 71 {
        return Err(Error::UnsupportedImageFormat);
    }
    if bytes[4] != 13 || bytes[5] != 10 || bytes[6] != 26 || bytes[7] != 10 {
        return Err(Error::UnsupportedImageFormat);
    }
    if bytes[12] != 73 || bytes[13] != 72 || bytes[14] != 68 || bytes[15] != 82 {
        return Err(Error::UnsupportedImageFormat);
    }
    let w = (bytes[16] as u32) * 0x100_0000 + (bytes[17] as u32) * 0x1_0000 + (bytes[18] as u32)
        * 0x100 + (bytes[19] as u32);
    let h = (bytes[20] as u32) * 0x100_0000 + (bytes[21] as u32) * 0x1_0000 + (bytes[22] as u32)
        * 0x100 + (bytes[23] as u32);
    Ok((w, h))
}

/// An image scaled for display: the raw payload is kept in the document's
/// resource list and referenced here by index.
///
/// Invariant: the display width is derived from the display height by the
/// intrinsic aspect ratio — an image is never independently stretched.
#[derive(Debug, Clone, Copy, PartialEq, Eq, Structural)]
pub struct ImageBox {
    /// Index of the raw payload in the document's image resources.
    pub resource: usize,
    /// Intrinsic pixel width.
    pub intrinsic_w: u32,
    /// Intrinsic pixel height; never zero.
    pub intrinsic_h: u32,
    /// Display width, derived from the aspect ratio.
    pub display_w: u64,
    /// Requested display height.
    pub display_h: u32,
}

impl ImageBox {
    /// The aspect-ratio invariant holds and the intrinsic height is usable.
    pub open spec fn wf(self) -> bool {
        &&& self.intrinsic_h > 0
        &&& self.display_w == spec_scaled_width(
            self.intrinsic_w as int,
            self.intrinsic_h as int,
            self.display_h as int,
        )
    }

    /// Build an image box scaled to the requested display height.
    /// Fails with `DivisionByZero` if and only if the intrinsic height is
    /// zero.
    pub fn new(resource: usize, intrinsic_w: u32, intrinsic_h: u32, display_h: u32) -> (r: Result<
        ImageBox,
        Error,
    >)
        ensures
            match r {
                Ok(b) => {
                    &&& b.wf()
                    &&& intrinsic_h != 0
                    &&& b.resource == resource
                    &&& b.intrinsic_w == intrinsic_w
                    &&& b.intrinsic_h == intrinsic_h
                    &&& b.display_h == display_h
                },
                Err(e) => e == Error::DivisionByZero && intrinsic_h == 0,
            },
    {
        let (w, h) = match scale_to_height(intrinsic_w, intrinsic_h, display_h) {
            Ok(wh) => wh,
            Err(e) => {
                return Err(e);
            },
        };
        Ok(ImageBox { resource, intrinsic_w, intrinsic_h, display_w: w, display_h: h })
    }
}

} // verus!
