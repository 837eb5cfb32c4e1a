//! The adaptive encoder: encode a raster as a PNG stream at the fast
//! compression tier, and only when that stream exceeds the ceiling re-encode
//! the same raster at the highest tier. A rendition whose best encoding is
//! still oversized is skipped, never kept. Exactly two attempts, never more.

use vstd::prelude::*;
use crate::raster::Raster;

verus! {

/// What the PNG encoder produces for a given RGBA buffer, its dimensions and
/// a compression tier (`high` selects the maximum-effort tier, otherwise the
/// fast tier). Both attempts use the same fixed color model, 8-bit RGBA, so
/// only the compression effort can differ between them. The stream depends on
/// these inputs alone; no claim is made here about its bytes.
pub uninterp spec fn png_encoding(data: Seq<u8>, width: u32, height: u32, high: bool) -> Seq<u8>;

/// A codec-level failure while producing the PNG stream, named after the
/// error classes the codec reports. Distinct from a size-ceiling skip: a skip
/// is reserved for a stream that encoded successfully but came out oversized.
#[derive(Clone, Copy, PartialEq, Eq, Structural, Debug)]
pub enum EncodeError {
    Io,
    Format,
    Parameter,
    LimitsExceeded,
}

/// How the adaptive encoder ended for one rendition: either an encoding that
/// fits the ceiling, together with the tier that produced it, or the name of
/// the rendition that had to be skipped.
#[derive(Debug)]
pub enum EncodeOutcome {
    Accepted { bytes: Vec<u8>, used_high: bool },
    Skipped { name: String },
}

/// Whether a stream of `len` bytes fits under the ceiling.
pub open spec fn fits_ceiling(len: nat, ceiling: u64) -> bool {
    len <= ceiling
}

/// Whether the fast-tier encoding of this raster fits the ceiling.
pub open spec fn fast_fits(data: Seq<u8>, width: u32, height: u32, ceiling: u64) -> bool {
    fits_ceiling(png_encoding(data, width, height, false).len(), ceiling)
}

/// Whether the high-tier encoding of this raster fits the ceiling.
pub open spec fn high_fits(data: Seq<u8>, width: u32, height: u32, ceiling: u64) -> bool {
    fits_ceiling(png_encoding(data, width, height, true).len(), ceiling)
}

/// Everything the adaptive policy promises of a successful outcome for a
/// raster with pixels `data` at `width` x `height`, a ceiling, and the
/// rendition's `name`:
/// - an accepted rendition always fits the ceiling;
/// - the fast tier is kept only as it came out, and the high tier is reached
///   only when the fast stream was oversized;
/// - a skip carries exactly `name` and happens only when both tiers came out
///   oversized.
pub open spec fn adaptive_outcome_ok(
    o: EncodeOutcome,
    data: Seq<u8>,
    width: u32,
    height: u32,
    ceiling: u64,
    name: Seq<char>,
) -> bool {
    match o {
        EncodeOutcome::Accepted { bytes, used_high } => {
            &&& fits_ceiling(bytes@.len(), ceiling)
            &&& if used_high {
                &&& bytes@ == png_encoding(data, width, height, true)
                &&& !fast_fits(data, width, height, ceiling)
            } else {
                bytes@ == png_encoding(data, width, height, false)
            }
        },
        EncodeOutcome::Skipped { name: n } => {
            &&& n@ == name
            &&& !fast_fits(data, width, height, ceiling)
            &&& !high_fits(data, width, height, ceiling)
        },
    }
}

/// Whether a byte count fits under the ceiling.
pub fn within_ceiling(len: usize, ceiling: u64) -> (r: bool)
    ensures
        r == fits_ceiling(len as nat, ceiling),
{
    (len as u64) <= ceiling
}

/// Encode one raster adaptively against the ceiling: try the fast tier, keep
/// it if it fits, otherwise try the high tier once, and skip the rendition
/// under its name when even that stream is oversized. The error channel is
/// reserved for codec-level failure and is never folded into a skip; on a
/// well-formed raster the codec cannot fail, so a decision is owed.
pub fn encode_adaptive(raster: &Raster, name: String, ceiling: u64) -> (r: Result<
    EncodeOutcome,
    EncodeError,
>)
    requires
        raster.wf(),
    ensures
        r is Ok,
        match r {
            Ok(o) => adaptive_outcome_ok(
                o,
                raster.data@,
                raster.width,
                raster.height,
                ceiling,
                name@,
            ),
            Err(_) => true,
        },
{
    let fast = encode_tier(&raster.data, raster.width, raster.height, false);
    match fast {
        Err(e) => Err(e),
        Ok(bytes) => {
            if within_ceiling(bytes.len(), ceiling) {
                Ok(EncodeOutcome::Accepted { bytes, used_high: false })
            } else {
                match encode_tier(&raster.data, raster.width, raster.height, true) {
                    Err(e) => Err(e),
                    Ok(best) => {
                        if within_ceiling(best.len(), ceiling) {
                            Ok(EncodeOutcome::Accepted { bytes: best, used_high: true })
                        } else {
                            Ok(EncodeOutcome::Skipped { name })
                        }
                    },
                }
            }
        },
    }
}

/// When the fast-tier encoding fits the ceiling, the only outcome the policy
/// allows is acceptance of exactly that stream, from the single first
/// attempt.
pub proof fn lemma_fast_fit_accepted(
    o: EncodeOutcome,
    data: Seq<u8>,
    width: u32,
    height: u32,
    ceiling: u64,
    name: Seq<char>,
)
    requires
        adaptive_outcome_ok(o, data, width, height, ceiling, name),
        fast_fits(data, width, height, ceiling),
    ensures
        o matches EncodeOutcome::Accepted { bytes, used_high } && !used_high && bytes@
            == png_encoding(data, width, height, false),
{
}

/// When the fast-tier encoding is oversized but the high tier fits, the only
/// outcome the policy allows is acceptance of the high-tier stream.
pub proof fn lemma_high_fit_accepted(
    o: EncodeOutcome,
    data: Seq<u8>,
    width: u32,
    height: u32,
    ceiling: u64,
    name: Seq<char>,
)
    requires
        adaptive_outcome_ok(o, data, width, height, ceiling, name),
        !fast_fits(data, width, height, ceiling),
        high_fits(data, width, height, ceiling),
    ensures
        o matches EncodeOutcome::Accepted { bytes, used_high } && used_high && bytes@
            == png_encoding(data, width, height, true),
{
}

/// When even the high-tier encoding is oversized, the only outcome the
/// policy allows is a skip under the rendition's name.
pub proof fn lemma_oversized_skipped(
    o: EncodeOutcome,
    data: Seq<u8>,
    width: u32,
    height: u32,
    ceiling: u64,
    name: Seq<char>,
)
    requires
        adaptive_outcome_ok(o, data, width, height, ceiling, name),
        !fast_fits(data, width, height, ceiling),
        !high_fits(data, width, height, ceiling),
    ensures
        o matches EncodeOutcome::Skipped { name: n } && n@ == name,
{
}

/// Idempotence of the accept/skip decision: two successful runs of the
/// adaptive encoder on the same raster and ceiling end in the same outcome
/// class, whatever names they were given.
pub proof fn lemma_adaptive_idempotent(
    o1: EncodeOutcome,
    o2: EncodeOutcome,
    data: Seq<u8>,
    width: u32,
    height: u32,
    ceiling: u64,
    name1: Seq<char>,
    name2: Seq<char>,
)
    requires
        adaptive_outcome_ok(o1, data, width, height, ceiling, name1),
        adaptive_outcome_ok(o2, data, width, height, ceiling, name2),
    ensures
        (o1 is Accepted) == (o2 is Accepted),
{
}

/// The codec's own error type, opaque here; its classes are read off by
/// `encode_error_class`.
#[verifier::external_type_specification]
#[verifier::external_body]
pub struct ExEncodingError(png::EncodingError);

/// Produce one PNG stream for the raster at the chosen tier, mapping a codec
/// failure to the library's error classes. On well-formed input the codec
/// cannot fail, so the stream is owed.
fn encode_tier(data: &Vec<u8>, width: u32, height: u32, high: bool) -> (r: Result<
    Vec<u8>,
    EncodeError,
>)
    requires
        width > 0,
        height > 0,
        data@.len() == 4 * width * height,
    ensures
        r is Ok,
        match r {
            Ok(bytes) => bytes@ == png_encoding(data@, width, height, high),
            Err(_) => true,
        },
{
    match encode_png(data, width, height, high) {
        Ok(bytes) => Ok(bytes),
        Err(e) => Err(encode_error_class(e)),
    }
}

/// Relies on png::Encoder with ColorType::Rgba, BitDepth::Eight and
/// Compression::High or Compression::Fast: the stream written to the
/// in-memory sink is a function of the pixel bytes, the dimensions and the
/// chosen compression alone. On the admitted inputs the codec has no failure
/// path, so the call returns Ok: its only error returns are zero dimensions,
/// an invalid color/depth combination, a buffer whose length is not exactly
/// 4 * width * height, sequence validation (off by default), and sink I/O —
/// and writing to a Vec never fails.
#[verifier::external_body]
fn encode_png(data: &Vec<u8>, width: u32, height: u32, high: bool) -> (r: Result<
    Vec<u8>,
    png::EncodingError,
>)
    requires
        width > 0,
        height > 0,
        data@.len() == 4 * width * height,
    ensures
        r is Ok,
        match r {
            Ok(bytes) => bytes@ == png_encoding(data@, width, height, high),
            Err(_) => true,
        },
{
    let mut sink: Vec<u8> = Vec::new();
    let mut encoder = png::Encoder::new(&mut sink, width, height);
    encoder.set_color(png::ColorType::Rgba);
    encoder.set_depth(png::BitDepth::Eight);
    encoder.set_compression(if high { png::Compression::High } else { png::Compression::Fast });
    let attempt = match encoder.write_header() {
        Ok(mut w) => w.write_image_data(data),
        Err(e) => Err(e),
    };
    match attempt {
        Ok(()) => Ok(sink),
        Err(e) => Err(e),
    }
}

/// Relies on png::EncodingError: its four classes are told apart, one arm
/// each.
#[verifier::external_body]
fn encode_error_class(e: png::EncodingError) -> (r: EncodeError) {
    match e {
        png::EncodingError::IoError(_) => EncodeError::Io,
        png::EncodingError::Format(_) => EncodeError::Format,
        png::EncodingError::Parameter(_) => EncodeError::Parameter,
        png::EncodingError::LimitsExceeded => EncodeError::LimitsExceeded,
    }
}

} // verus!
