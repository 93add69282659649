//! Decoded pixel buffers and the encoder call plan.
//!
//! The decoder hands over raw pixels in one of four layouts; the encoder
//! takes the buffer together with width, height, stride and an importer
//! selector. Decoding and encoding themselves are foreign; this module
//! fixes the arithmetic between them: bytes per pixel, stride, and the
//! importer code for each layout, with the bounds the encoder's `i32`
//! parameters force.

use vstd::prelude::*;

verus! {

/// The pixel layouts the encoder can import directly; a decoded image in
/// any other layout is widened to `Rgb` or `Rgba` first.
#[derive(Clone, Copy, Debug, PartialEq, Eq, Structural)]
pub enum PixelLayout {
    Rgb,
    Rgba,
    Bgr,
    Bgra,
}

pub open spec fn spec_bytes_per_pixel(l: PixelLayout) -> int {
    match l {
        PixelLayout::Rgb => 3,
        PixelLayout::Bgr => 3,
        PixelLayout::Rgba => 4,
        PixelLayout::Bgra => 4,
    }
}

pub fn bytes_per_pixel(l: PixelLayout) -> (r: u32)
    ensures
        r as int == spec_bytes_per_pixel(l),
{
    match l {
        PixelLayout::Rgb => 3,
        PixelLayout::Bgr => 3,
        PixelLayout::Rgba => 4,
        PixelLayout::Bgra => 4,
    }
}

/// The encoder's importer selector for each layout.
pub open spec fn spec_importer_code(l: PixelLayout) -> int {
    match l {
        PixelLayout::Rgb => 1,
        PixelLayout::Rgba => 2,
        PixelLayout::Bgr => 3,
        PixelLayout::Bgra => 4,
    }
}

pub fn importer_code(l: PixelLayout) -> (r: i32)
    ensures
        r as int == spec_importer_code(l),
{
    match l {
        PixelLayout::Rgb => 1,
        PixelLayout::Rgba => 2,
        PixelLayout::Bgr => 3,
        PixelLayout::Bgra => 4,
    }
}

/// A decoded image: raw bytes in row-major order, tightly packed.
pub struct DecodedImage {
    pub layout: PixelLayout,
    pub width: u32,
    pub height: u32,
    pub data: Vec<u8>,
}

impl DecodedImage {
    /// The buffer holds exactly one pixel's bytes per pixel.
    pub open spec fn wf(&self) -> bool {
        self.data@.len() == self.width * self.height * spec_bytes_per_pixel(self.layout)
    }
}

/// The scalar arguments of one encoder call.
#[derive(Debug, PartialEq)]
pub struct EncodePlan {
    pub width: i32,
    pub height: i32,
    pub stride: i32,
    pub importer: i32,
}

/// Computes the encoder call for a decoded image: width, height, the
/// stride of a tightly packed row, and the importer code of the layout.
/// `None` exactly when the dimensions do not fit the encoder's `i32`
/// parameters.
pub fn encode_plan(img: &DecodedImage) -> (r: Option<EncodePlan>)
    ensures
        (r is Some) == (img.width * spec_bytes_per_pixel(img.layout) <= i32::MAX && img.height
            <= i32::MAX),
        (match r {
            Some(p) => {
                &&& p.width as int == img.width as int
                &&& p.height as int == img.height as int
                &&& p.stride as int == img.width * spec_bytes_per_pixel(img.layout)
                &&& p.importer as int == spec_importer_code(img.layout)
                &&& img.wf() ==> p.stride * p.height == img.data@.len()
            },
            None => true,
        }),
{
    proof {
        assert((img.width * spec_bytes_per_pixel(img.layout)) * img.height == img.width
            * img.height * spec_bytes_per_pixel(img.layout)) by (nonlinear_arith);
    }
    let bpp = bytes_per_pixel(img.layout);
    let stride_wide: u64 = (img.width as u64) * (bpp as u64);
    if stride_wide > i32::MAX as u64 || img.height > i32::MAX as u32 {
        return None;
    }
    Some(
        EncodePlan {
            width: img.width as i32,
            height: img.height as i32,
            stride: stride_wide as i32,
            importer: importer_code(img.layout),
        },
    )
}

} // verus!
