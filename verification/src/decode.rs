//! Decoding of encoded image bytes into pixel buffers, and the error
//! taxonomy of the load pipeline.
//!
//! The byte-level codecs are the `image` crate's responsibility; this module
//! reaches them through two trusted wrappers whose results are named by
//! uninterpreted decoding functions - decoding depends on the bytes alone -
//! and builds the crate's own buffers and frames from the plain values they
//! return.  Everything after the wrapper call is verified.

use vstd::prelude::*;

use crate::animation::AnimFrame;
use crate::buffer::PixelBuffer;

verus! {

/// Why a load failed.  `SourceUnreadable` covers a missing path, denied
/// permission or a reset connection; `DecodeFailed` covers corrupt or
/// unsupported bytes.  A stale generation is not an error: it is discarded
/// silently by the consumer.
#[derive(Clone, Copy, PartialEq, Eq, Structural, Debug)]
pub enum LoadError {
    SourceUnreadable,
    DecodeFailed,
}

impl LoadError {
    /// A human-readable failure reason, surfaced by the shell.
    pub fn message(&self) -> (m: &'static str)
        ensures
            self is SourceUnreadable ==> m@ == "the source could not be read"@,
            self is DecodeFailed ==> m@ == "the image data could not be decoded"@,
    {
        match self {
            LoadError::SourceUnreadable => "the source could not be read",
            LoadError::DecodeFailed => "the image data could not be decoded",
        }
    }
}

/// What decoding a static image returns: `None` when the bytes cannot be
/// decoded, otherwise width, height and the RGBA8 samples.  The result is a
/// function of the bytes alone.
pub uninterp spec fn static_decoding(bytes: Seq<u8>) -> Option<(u32, u32, Seq<u8>)>;

/// What decoding an animated image returns: `None` when the bytes cannot be
/// decoded, otherwise for each frame its width, height, RGBA8 samples, and
/// the numerator and denominator of its delay in milliseconds.  The result
/// is a function of the bytes alone.
pub uninterp spec fn animation_decoding(bytes: Seq<u8>) -> Option<
    Seq<(u32, u32, Seq<u8>, u32, u32)>,
>;

/// Relies on image::load_from_memory and DynamicImage::to_rgba8: decoding is
/// a function of the bytes alone, and the converted RGBA8 buffer holds
/// exactly four samples per pixel.
#[verifier::external_body]
fn decode_rgba(bytes: &Vec<u8>) -> (r: Option<(u32, u32, Vec<u8>)>)
    ensures
        r is Some <==> static_decoding(bytes@) is Some,
        r matches Some(t) ==> static_decoding(bytes@) == Some((t.0, t.1, t.2@)) && t.2@.len() == 4
            * t.0 * t.1,
{
    match image::load_from_memory(bytes.as_slice()) {
        Ok(img) => {
            let rgba = img.to_rgba8();
            let (w, h) = (rgba.width(), rgba.height());
            Some((w, h, rgba.into_raw()))
        },
        Err(_) => None,
    }
}

/// Relies on image::codecs::gif::GifDecoder, AnimationDecoder::into_frames
/// and Frames::collect_frames: decoding is a function of the bytes alone;
/// each frame's RGBA8 buffer holds exactly four samples per pixel, and
/// Delay::numer_denom_ms returns a ratio whose denominator is never zero.
#[verifier::external_body]
fn decode_gif_frames(bytes: &Vec<u8>) -> (r: Option<Vec<(u32, u32, Vec<u8>, u32, u32)>>)
    ensures
        r is Some <==> animation_decoding(bytes@) is Some,
        r matches Some(v) ==> animation_decoding(bytes@) matches Some(s) && s.len() == v@.len()
            && forall|i: int|
            0 <= i < v@.len() ==> s[i] == (v@[i].0, v@[i].1, v@[i].2@, v@[i].3, v@[i].4)
                && v@[i].2@.len() == 4 * v@[i].0 * v@[i].1 && v@[i].4 > 0,
{
    let dec = image::codecs::gif::GifDecoder::new(std::io::Cursor::new(bytes.as_slice())).ok()?;
    let frames = image::AnimationDecoder::into_frames(dec).collect_frames().ok()?;
    let mut out = Vec::new();
    for f in frames {
        let (dn, dd) = f.delay().numer_denom_ms();
        let buf = f.into_buffer();
        let (w, h) = (buf.width(), buf.height());
        out.push((w, h, buf.into_raw(), dn, dd));
    }
    Some(out)
}

/// Decodes a static image.
pub fn decode_static(bytes: &Vec<u8>) -> (r: Result<PixelBuffer, LoadError>)
    ensures
        r is Ok <==> static_decoding(bytes@) is Some,
        r matches Ok(b) ==> static_decoding(bytes@) matches Some(t) && b@.width == t.0 && b@.height
            == t.1 && b@.data == t.2 && b.wf(),
        r matches Err(e) ==> e == LoadError::DecodeFailed,
{
    match decode_rgba(bytes) {
        Some((w, h, data)) => {
            match PixelBuffer::from_raw(w, h, data) {
                Some(b) => Ok(b),
                None => unreached(),
            }
        },
        None => Err(LoadError::DecodeFailed),
    }
}

/// The delay of one animation frame in whole milliseconds: the ratio's
/// quotient, with a zero denominator read as no delay.
pub open spec fn delay_ms(num: u32, den: u32) -> int {
    if den == 0 {
        0
    } else {
        num as int / den as int
    }
}

/// Decodes an animated image into its frame sequence.  The sequence may be
/// empty for bytes that decode to no frames; whether it can drive an
/// animation is decided by the animation state's constructor.
pub fn decode_animation(bytes: &Vec<u8>) -> (r: Result<Vec<AnimFrame>, LoadError>)
    ensures
        r is Ok <==> animation_decoding(bytes@) is Some,
        r matches Err(e) ==> e == LoadError::DecodeFailed,
        r matches Ok(v) ==> animation_decoding(bytes@) matches Some(s) && v@.len() == s.len()
            && forall|i: int|
            0 <= i < s.len() ==> (#[trigger] v@[i]@).buffer.width == s[i].0 && v@[i]@.buffer.height
                == s[i].1 && v@[i]@.buffer.data == s[i].2 && v@[i]@.duration_ms == delay_ms(
                s[i].3,
                s[i].4,
            ) && v@[i]@.buffer.wf(),
{
    let mut raw = match decode_gif_frames(bytes) {
        Some(v) => v,
        None => {
            return Err(LoadError::DecodeFailed);
        },
    };
    let ghost rawseq = raw@;
    let ghost s = animation_decoding(bytes@).unwrap();
    let n = raw.len();
    let mut out: Vec<AnimFrame> = Vec::new();
    let mut i: usize = 0;
    while i < n
        invariant
            n == rawseq.len(),
            animation_decoding(bytes@) == Some(s),
            s.len() == rawseq.len(),
            forall|k: int|
                0 <= k < rawseq.len() ==> s[k] == (rawseq[k].0, rawseq[k].1, rawseq[k].2@, rawseq[k].3, rawseq[k].4)
                    && rawseq[k].2@.len() == 4 * rawseq[k].0 * rawseq[k].1,
            i <= n,
            raw@.len() == n - i,
            raw@ =~= rawseq.subrange(i as int, n as int),
            out@.len() == i,
            forall|k: int|
                0 <= k < i ==> (#[trigger] out@[k]@).buffer.width == s[k].0 && out@[k]@.buffer.height
                    == s[k].1 && out@[k]@.buffer.data == s[k].2 && out@[k]@.duration_ms == delay_ms(
                    s[k].3,
                    s[k].4,
                ) && out@[k]@.buffer.wf(),
        decreases n - i,
    {
        let ghost prev = raw@;
        let t = raw.remove(0);
        proof {
            assert(t == rawseq[i as int]);
            assert(raw@ =~= rawseq.subrange(i as int + 1, n as int)) by {
                assert forall|k: int| 0 <= k < raw@.len() implies raw@[k] == rawseq.subrange(
                    i as int + 1,
                    n as int,
                )[k] by {
                    assert(raw@[k] == prev[k + 1]);
                }
            }
        }
        proof {
            assert(s[i as int] == (rawseq[i as int].0, rawseq[i as int].1, rawseq[i as int].2@, rawseq[i as int].3, rawseq[i as int].4));
            assert(rawseq[i as int].2@.len() == 4 * rawseq[i as int].0 * rawseq[i as int].1);
        }
        let (w, h, data, dn, dd) = t;
        let buffer = match PixelBuffer::from_raw(w, h, data) {
            Some(b) => b,
            None => unreached(),
        };
        let dur: u32 = if dd == 0 {
            0
        } else {
            dn / dd
        };
        out.push(AnimFrame { buffer, duration_ms: dur });
        i = i + 1;
    }
    Ok(out)
}

/// The synchronous load used for the first image at startup: the shell
/// hands in the file's bytes, or `None` when the source could not be read,
/// and blocks for the decode.  On failure no frame is ever produced.
pub fn load_blocking(read: Option<Vec<u8>>) -> (r: Result<PixelBuffer, LoadError>)
    ensures
        read is None ==> r == Err::<PixelBuffer, LoadError>(LoadError::SourceUnreadable),
        read matches Some(b) ==> (r is Ok <==> static_decoding(b@) is Some) && (r matches Ok(buf)
            ==> static_decoding(b@) matches Some(t) && buf@.width == t.0 && buf@.height == t.1
            && buf@.data == t.2 && buf.wf()) && (static_decoding(b@) is None ==> r == Err::<
            PixelBuffer,
            LoadError,
        >(LoadError::DecodeFailed)),
{
    match read {
        None => Err(LoadError::SourceUnreadable),
        Some(bytes) => decode_static(&bytes),
    }
}

} // verus!
