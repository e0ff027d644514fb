use vstd::prelude::*;
use crate::util::ReadableByteSlice;

verus! {

/// A demosaiced image: one `(r, g, b)` triple per pixel, row by row.
pub struct RgbImage {
    rgb_data: Vec<(u8, u8, u8)>,
    height: usize,
    width: usize,
}

impl RgbImage {
    pub closed spec fn spec_width(&self) -> nat {
        self.width as nat
    }

    pub closed spec fn spec_height(&self) -> nat {
        self.height as nat
    }

    pub closed spec fn spec_rgb(&self) -> Seq<(u8, u8, u8)> {
        self.rgb_data@
    }

    pub fn width(&self) -> (r: usize)
        ensures
            r as nat == self.spec_width(),
    {
        self.width
    }

    pub fn height(&self) -> (r: usize)
        ensures
            r as nat == self.spec_height(),
    {
        self.height
    }

    pub fn rgb_data(&self) -> (r: &Vec<(u8, u8, u8)>)
        ensures
            r@ == self.spec_rgb(),
    {
        &self.rgb_data
    }
}

/// Why a RAW file could not be turned into an RGB image.
#[derive(Debug, Clone, Copy, PartialEq, Eq, Structural)]
pub enum DecodeError {
    /// The bytes are not a RAW file that the decoder recognises.
    Unreadable,
    /// The sensor data are floating-point samples, which are not supported.
    FloatSamples,
    /// The number of samples is not width times height.
    SizeMismatch,
    /// The RGB buffer for the image would not fit in memory.
    TooLarge,
    /// The demosaic step rejected the image (it needs at least 2 x 2 pixels).
    DemosaicFailure,
}

/// What `rawloader::decode` makes of a file's bytes: `None` where it fails,
/// else the width, the height and the samples, which are `None` where they
/// are floating point.
pub uninterp spec fn raw_decoding(bytes: Seq<u8>) -> Option<(nat, nat, Option<Seq<u16>>)>;

/// What `bayer::run_demosaic` writes, with linear interpolation over an RGGB
/// pattern, for 8-bit sensor data of the given size: `None` where it fails.
pub uninterp spec fn linear_rggb_demosaic(raw: Seq<u8>, width: nat, height: nat) -> Option<
    Seq<u8>,
>;

pub open spec fn samples_view(s: Option<Vec<u16>>) -> Option<Seq<u16>> {
    match s {
        Some(v) => Some(v@),
        None => None,
    }
}

/// Relies on `rawloader::decode` for the size and the sensor data of a RAW
/// file held in memory.
#[verifier::external_body]
fn decode_raw(data: &[u8]) -> (r: Option<(usize, usize, Option<Vec<u16>>)>)
    ensures
        r is None <==> raw_decoding(data@) is None,
        r matches Some((w, h, s)) ==> raw_decoding(data@) == Some(
            (w as nat, h as nat, samples_view(s)),
        ),
{
    let mut reader: &[u8] = data;
    match rawloader::decode(&mut reader) {
        Ok(img) => Some((img.width, img.height, match img.data {
            rawloader::RawImageData::Integer(v) => Some(v),
            rawloader::RawImageData::Float(_) => None,
        })),
        Err(_) => None,
    }
}

/// Relies on `bayer::RasterMut::new` and `bayer::run_demosaic` (8-bit input,
/// RGGB pattern, linear interpolation) to fill `dst` with 3 bytes per pixel.
#[verifier::external_body]
fn demosaic_linear_rggb(raw: &[u8], width: usize, height: usize, dst: &mut [u8]) -> (ok: bool)
    requires
        width >= 2,
        height >= 2,
        old(dst)@.len() == 3 * width * height,
    ensures
        final(dst)@.len() == old(dst)@.len(),
        ok <==> linear_rggb_demosaic(raw@, width as nat, height as nat) is Some,
        ok ==> linear_rggb_demosaic(raw@, width as nat, height as nat) == Some(final(dst)@),
{
    let mut reader = ReadableByteSlice::new(raw);
    let mut raster = bayer::RasterMut::new(width, height, bayer::RasterDepth::Depth8, dst);
    bayer::run_demosaic(
        &mut reader,
        bayer::BayerDepth::Depth8,
        bayer::CFA::RGGB,
        bayer::Demosaic::Linear,
        &mut raster,
    ).is_ok()
}

/// A 14-bit sensor sample scaled to 8 bits, saturating at 255.
pub open spec fn scale_sample(v: u16) -> u8 {
    let s = (v as int) * 255 / 16384;
    if s > 255 { 255u8 } else { s as u8 }
}

/// Scales every 14-bit sensor sample to 8 bits.
pub fn scale_to_u8(samples: &[u16]) -> (r: Vec<u8>)
    ensures
        r@ == samples@.map_values(|v: u16| scale_sample(v)),
{
    let mut out: Vec<u8> = Vec::with_capacity(samples.len());
    let mut i: usize = 0;
    while i < samples.len()
        invariant
            i <= samples@.len(),
            out@ == samples@.subrange(0, i as int).map_values(|v: u16| scale_sample(v)),
        decreases samples@.len() - i,
    {
        let v = samples[i];
        let scaled: u32 = (v as u32) * 255 / 16384;
        let b: u8 = if scaled > 255 { 255 } else { scaled as u8 };
        out.push(b);
        proof {
            assert(samples@.subrange(0, i + 1) =~= samples@.subrange(0, i as int).push(v));
        }
        i = i + 1;
    }
    assert(samples@.subrange(0, samples@.len() as int) =~= samples@);
    out
}

/// The pixels of an interleaved RGB buffer: bytes `3i`, `3i + 1` and `3i + 2`
/// make pixel `i`; a trailing partial pixel is dropped.
pub open spec fn rgb_triples_of(buf: Seq<u8>) -> Seq<(u8, u8, u8)> {
    Seq::new(buf.len() / 3, |i: int| (buf[3 * i], buf[3 * i + 1], buf[3 * i + 2]))
}

/// Groups an interleaved RGB buffer into one triple per pixel.
pub fn rgb_triples(buf: &[u8]) -> (r: Vec<(u8, u8, u8)>)
    ensures
        r@ == rgb_triples_of(buf@),
{
    let len = buf.len();
    let n = len / 3;
    let mut out: Vec<(u8, u8, u8)> = Vec::with_capacity(n);
    let mut i: usize = 0;
    while i < n
        invariant
            len == buf@.len(),
            n == len / 3,
            i <= n,
            out@.len() == i,
            forall|k: int| 0 <= k < i ==> out@[k] == (buf@[3 * k], buf@[3 * k + 1], buf@[3 * k + 2]),
        decreases n - i,
    {
        proof {
            assert(3 * i + 2 < len) by (nonlinear_arith)
                requires
                    i < n,
                    n == len / 3,
            ;
        }
        out.push((buf[3 * i], buf[3 * i + 1], buf[3 * i + 2]));
        i = i + 1;
    }
    assert(out@ =~= rgb_triples_of(buf@));
    out
}

/// The image made from `width` by `height` 14-bit samples, or why there is none.
pub open spec fn image_of_samples(width: nat, height: nat, samples: Seq<u16>) -> Result<
    (nat, nat, Seq<(u8, u8, u8)>),
    DecodeError,
> {
    if samples.len() != width * height {
        Err(DecodeError::SizeMismatch)
    } else if width < 2 || height < 2 {
        Err(DecodeError::DemosaicFailure)
    } else if 3 * width * height > usize::MAX {
        Err(DecodeError::TooLarge)
    } else {
        match linear_rggb_demosaic(samples.map_values(|v: u16| scale_sample(v)), width, height) {
            Some(buf) => Ok((width, height, rgb_triples_of(buf))),
            None => Err(DecodeError::DemosaicFailure),
        }
    }
}

/// The image that a RAW file's bytes decode to, or why there is none.
pub open spec fn image_of_raw(bytes: Seq<u8>) -> Result<(nat, nat, Seq<(u8, u8, u8)>), DecodeError> {
    match raw_decoding(bytes) {
        None => Err(DecodeError::Unreadable),
        Some((_, _, None)) => Err(DecodeError::FloatSamples),
        Some((w, h, Some(samples))) => image_of_samples(w, h, samples),
    }
}

pub open spec fn image_view(r: Result<RgbImage, DecodeError>) -> Result<
    (nat, nat, Seq<(u8, u8, u8)>),
    DecodeError,
> {
    match r {
        Ok(img) => Ok((img.spec_width(), img.spec_height(), img.spec_rgb())),
        Err(e) => Err(e),
    }
}

/// Scales `width` by `height` 14-bit sensor samples to 8 bits and demosaics
/// them into an RGB image.
pub fn rgb_from_samples(width: usize, height: usize, samples: &[u16]) -> (r: Result<
    RgbImage,
    DecodeError,
>)
    ensures
        image_view(r) == image_of_samples(width as nat, height as nat, samples@),
{
    if width.checked_mul(height) != Some(samples.len()) {
        return Err(DecodeError::SizeMismatch);
    }
    if width < 2 || height < 2 {
        return Err(DecodeError::DemosaicFailure);
    }
    let len = match samples.len().checked_mul(3) {
        Some(n) => n,
        None => {
            proof {
                assert(3 * width * height == 3 * (width * height)) by (nonlinear_arith);
            }
            return Err(DecodeError::TooLarge);
        },
    };
    proof {
        assert(3 * width * height == 3 * (width * height)) by (nonlinear_arith);
    }
    let raw = scale_to_u8(samples);
    let mut buf: Vec<u8> = vec![0u8; len];
    let ok = demosaic_linear_rggb(raw.as_slice(), width, height, buf.as_mut_slice());
    if !ok {
        return Err(DecodeError::DemosaicFailure);
    }
    let rgb_data = rgb_triples(buf.as_slice());
    Ok(RgbImage { rgb_data, height, width })
}

/// Decodes a RAW file's bytes and demosaics them into an RGB image.
pub fn load_raw_image_as_0rgb(data: &[u8]) -> (r: Result<RgbImage, DecodeError>)
    ensures
        image_view(r) == image_of_raw(data@),
{
    match decode_raw(data) {
        None => Err(DecodeError::Unreadable),
        Some((width, height, samples)) => match samples {
            None => Err(DecodeError::FloatSamples),
            Some(samples) => rgb_from_samples(width, height, samples.as_slice()),
        },
    }
}

} // verus!
