//! The in-memory raster model: an 8-bit RGBA pixel buffer with its
//! dimensions held as plain values, and the resize step that maps it to an
//! exact target size.

use vstd::prelude::*;

verus! {

/// What the Lanczos3 resampler produces for a given RGBA buffer and a pair of
/// source and target dimensions. The pixel values depend on the inputs alone;
/// no claim is made here about what they are. The resampling arithmetic is
/// floating point, so the exact bytes are fixed within any one build of the
/// resampler but need not be bit-identical across platforms whose math
/// libraries differ.
pub uninterp spec fn lanczos3_rgba(
    data: Seq<u8>,
    src_width: u32,
    src_height: u32,
    width: u32,
    height: u32,
) -> Seq<u8>;

/// A decoded image held in memory: 8-bit RGBA samples in row-major order,
/// four bytes per pixel.
#[derive(Debug)]
pub struct Raster {
    pub width: u32,
    pub height: u32,
    pub data: Vec<u8>,
}

impl Raster {
    /// A raster is well formed when it is non-empty and its buffer holds
    /// exactly four bytes per pixel.
    pub open spec fn wf(self) -> bool {
        &&& self.width > 0
        &&& self.height > 0
        &&& self.data@.len() == 4 * self.width * self.height
    }

    /// Build a raster from raw RGBA bytes, rejecting empty dimensions and a
    /// buffer whose length does not match them.
    pub fn new(width: u32, height: u32, data: Vec<u8>) -> (r: Option<Raster>)
        ensures
            match r {
                Some(raster) => {
                    &&& raster.wf()
                    &&& raster.width == width
                    &&& raster.height == height
                    &&& raster.data@ == data@
                },
                None => width == 0 || height == 0 || data@.len() != 4 * width * height,
            },
    {
        proof {
            assert((width as int) * (height as int) <= 0xffff_ffff * 0xffff_ffff)
                by (nonlinear_arith)
                requires
                    width as int <= 0xffff_ffff,
                    height as int <= 0xffff_ffff,
            ;
        }
        let pixels: u64 = (width as u64) * (height as u64);
        let need: u128 = 4u128 * (pixels as u128);
        if width > 0 && height > 0 && (data.len() as u128) == need {
            proof {
                assert(data@.len() == 4 * width * height) by (nonlinear_arith)
                    requires
                        data@.len() == 4 * (pixels as int),
                        pixels == (width as int) * (height as int),
                ;
            }
            Some(Raster { width, height, data })
        } else {
            proof {
                assert((data.len() as u128) != need ==> data@.len() != 4 * width * height)
                    by (nonlinear_arith)
                    requires
                        need == 4 * (pixels as int),
                        pixels == (width as int) * (height as int),
                ;
            }
            None
        }
    }

    /// Resize this raster to exactly `width` x `height` pixels with the
    /// Lanczos3 resampler. The result is the same image content at the new
    /// size; which bytes it holds is fixed by `lanczos3_rgba`.
    pub fn resize(&self, width: u32, height: u32) -> (r: Raster)
        requires
            self.wf(),
            width > 0,
            height > 0,
        ensures
            r.wf(),
            r.width == width,
            r.height == height,
            r.data@ == lanczos3_rgba(self.data@, self.width, self.height, width, height),
    {
        let data = resize_rgba(&self.data, self.width, self.height, width, height);
        Raster { width, height, data }
    }
}

/// Relies on image::DynamicImage::resize_exact with FilterType::Lanczos3: the
/// result has exactly the requested dimensions, and its pixels are a function
/// of the source pixels and the dimensions alone. RgbaImage::from_raw accepts
/// any buffer of exactly 4 * width * height bytes.
#[verifier::external_body]
fn resize_rgba(data: &Vec<u8>, src_width: u32, src_height: u32, width: u32, height: u32) -> (r:
    Vec<u8>)
    requires
        src_width > 0,
        src_height > 0,
        width > 0,
        height > 0,
        data@.len() == 4 * src_width * src_height,
    ensures
        r@.len() == 4 * width * height,
        r@ == lanczos3_rgba(data@, src_width, src_height, width, height),
{
    let buffer = image::RgbaImage::from_raw(src_width, src_height, data.clone()).unwrap();
    let source = image::DynamicImage::ImageRgba8(buffer);
    let resized = source.resize_exact(width, height, image::imageops::FilterType::Lanczos3);
    resized.into_rgba8().into_raw()
}

} // verus!
