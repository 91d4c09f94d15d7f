//! Decoded pixel buffers: a width x height grid of RGBA8 samples, row-major,
//! owned exclusively by whichever pipeline stage currently holds it.
//!
//! Besides construction and sampling, the module holds the two pixel-space
//! transforms the operation stack applies: channel isolation and
//! unpremultiplication.  Each is specified byte by byte.

use vstd::prelude::*;

use crate::rational::lemma_prod_bounds;

verus! {

/// One RGBA8 sample.
#[derive(Clone, Copy, PartialEq, Eq, Structural, Debug)]
pub struct Rgba {
    pub r: u8,
    pub g: u8,
    pub b: u8,
    pub a: u8,
}

/// Mathematical model of a `PixelBuffer`.
pub struct PixelBufferV {
    pub width: int,
    pub height: int,
    pub data: Seq<u8>,
}

impl PixelBufferV {
    /// Dimensions are consistent with the sample storage.
    pub open spec fn wf(self) -> bool {
        0 <= self.width && 0 <= self.height && self.data.len() == 4 * self.width * self.height
    }

    /// The sample at pixel coordinate (x, y).
    pub open spec fn pixel(self, x: int, y: int) -> Rgba
        recommends
            self.wf(),
            0 <= x < self.width,
            0 <= y < self.height,
    {
        let i = 4 * (y * self.width + x);
        Rgba { r: self.data[i], g: self.data[i + 1], b: self.data[i + 2], a: self.data[i + 3] }
    }
}

/// A width x height grid of RGBA8 samples, row-major.
#[derive(Debug)]
pub struct PixelBuffer {
    width: u32,
    height: u32,
    data: Vec<u8>,
}

impl View for PixelBuffer {
    type V = PixelBufferV;

    closed spec fn view(&self) -> PixelBufferV {
        PixelBufferV { width: self.width as int, height: self.height as int, data: self.data@ }
    }
}

/// One byte of the channel-isolated image: the chosen channel's value for
/// the three color channels, 255 for alpha.
pub open spec fn solo_byte(d: Seq<u8>, ch: int, i: int) -> u8 {
    if i % 4 == 3 {
        255
    } else {
        d[4 * (i / 4) + ch]
    }
}

/// Channel isolation of a whole buffer.
pub open spec fn solo_channel_spec(b: PixelBufferV, ch: int) -> PixelBufferV {
    PixelBufferV {
        width: b.width,
        height: b.height,
        data: Seq::new(b.data.len(), |i: int| solo_byte(b.data, ch, i)),
    }
}

/// One byte of the unpremultiplied image: color channels are rescaled by
/// `255 / alpha`, saturating at 255; alpha 0 leaves the sample as it is.
pub open spec fn unpre_byte(d: Seq<u8>, i: int) -> u8 {
    if i % 4 == 3 {
        d[i]
    } else {
        let a = d[4 * (i / 4) + 3];
        if a == 0 {
            d[i]
        } else {
            let v = d[i] * 255 / (a as int);
            if v > 255 {
                255
            } else {
                v as u8
            }
        }
    }
}

/// Unpremultiplication of a whole buffer.
pub open spec fn unpremultiply_spec(b: PixelBufferV) -> PixelBufferV {
    PixelBufferV {
        width: b.width,
        height: b.height,
        data: Seq::new(b.data.len(), |i: int| unpre_byte(b.data, i)),
    }
}

/// Division and remainder of the sample indices of pixel p.
proof fn lemma_quad_index(p: int)
    by (nonlinear_arith)
    requires
        0 <= p,
    ensures
        (4 * p) / 4 == p && (4 * p) % 4 == 0,
        (4 * p + 1) / 4 == p && (4 * p + 1) % 4 == 1,
        (4 * p + 2) / 4 == p && (4 * p + 2) % 4 == 2,
        (4 * p + 3) / 4 == p && (4 * p + 3) % 4 == 3,
{
}

/// Index bounds of one pixel's samples inside the storage.
proof fn lemma_pixel_index(x: int, y: int, w: int, h: int)
    by (nonlinear_arith)
    requires
        0 <= x < w,
        0 <= y < h,
    ensures
        0 <= 4 * (y * w + x),
        4 * (y * w + x) + 4 <= 4 * (w * h),
{
}

impl PixelBuffer {
    pub open spec fn wf(self) -> bool {
        self@.wf()
    }

    pub fn width(&self) -> (r: u32)
        ensures
            r == self@.width,
    {
        self.width
    }

    pub fn height(&self) -> (r: u32)
        ensures
            r == self@.height,
    {
        self.height
    }

    /// Wraps raw RGBA8 samples; `None` exactly when the storage length does
    /// not match the dimensions.
    pub fn from_raw(width: u32, height: u32, data: Vec<u8>) -> (r: Option<Self>)
        ensures
            r is Some <==> data@.len() == 4 * width * height,
            r matches Some(b) ==> b@ == (PixelBufferV {
                width: width as int,
                height: height as int,
                data: data@,
            }) && b.wf(),
    {
        proof {
            lemma_prod_bounds(width as int, height as int, u32::MAX as int, u32::MAX as int);
            assert(4 * (width as int * height as int) == 4 * width * height) by (nonlinear_arith);
        }
        let pixels: u128 = width as u128 * height as u128;
        let expect: u128 = 4u128 * pixels;
        if data.len() as u128 == expect {
            Some(PixelBuffer { width, height, data })
        } else {
            None
        }
    }

    /// A buffer with every sample set to the same color.
    pub fn new_filled(width: u32, height: u32, color: Rgba) -> (r: Option<Self>)
        ensures
            r is Some <==> 4 * width * height <= usize::MAX,
            r matches Some(b) ==> b@.width == width && b@.height == height && b.wf() && forall|
                x: int,
                y: int,
            |
                0 <= x < width && 0 <= y < height ==> b@.pixel(x, y) == color,
    {
        proof {
            lemma_prod_bounds(width as int, height as int, u32::MAX as int, u32::MAX as int);
            assert(4 * (width as int * height as int) == 4 * width * height) by (nonlinear_arith);
        }
        let pixels: u128 = width as u128 * height as u128;
        if 4u128 * pixels > usize::MAX as u128 {
            return None;
        }
        let total: usize = 4 * (pixels as usize);
        let mut data: Vec<u8> = Vec::new();
        let mut i: usize = 0;
        while i < total
            invariant
                i % 4 == 0,
                i <= total,
                total == 4 * pixels,
                pixels == width as int * height as int,
                data@.len() == i,
                forall|j: int|
                    0 <= j < i ==> data@[j] == (if j % 4 == 0 {
                        color.r
                    } else if j % 4 == 1 {
                        color.g
                    } else if j % 4 == 2 {
                        color.b
                    } else {
                        color.a
                    }),
            decreases total - i,
        {
            data.push(color.r);
            data.push(color.g);
            data.push(color.b);
            data.push(color.a);
            i = i + 4;
        }
        let b = PixelBuffer { width, height, data };
        proof {
            assert forall|x: int, y: int| 0 <= x < width && 0 <= y < height implies b@.pixel(x, y)
                == color by {
                lemma_pixel_index(x, y, width as int, height as int);
                let m = y * (width as int) + x;
                assert((4 * m) % 4 == 0 && (4 * m + 1) % 4 == 1 && (4 * m + 2) % 4 == 2 && (4 * m
                    + 3) % 4 == 3) by (nonlinear_arith)
                    requires
                        0 <= m,
                ;
            }
        }
        Some(b)
    }

    /// An independent copy of the buffer.
    pub fn duplicate(&self) -> (r: Self)
        ensures
            r@ == self@,
    {
        let mut data: Vec<u8> = Vec::new();
        let mut i: usize = 0;
        let n = self.data.len();
        while i < n
            invariant
                n == self.data@.len(),
                i <= n,
                data@ =~= self.data@.subrange(0, i as int),
            decreases n - i,
        {
            data.push(self.data[i]);
            i = i + 1;
        }
        proof {
            assert(data@ =~= self.data@);
        }
        PixelBuffer { width: self.width, height: self.height, data }
    }

    /// Channel isolation: every sample becomes the chosen channel's value in
    /// all three color channels, with full alpha.
    pub fn solo_channel(&self, channel: u8) -> (r: PixelBuffer)
        requires
            self.wf(),
            channel < 4,
        ensures
            r@ == solo_channel_spec(self@, channel as int),
            r.wf(),
    {
        let total = self.data.len();
        let pixels = total / 4;
        proof {
            assert(4 * (self@.width * self@.height) == 4 * self@.width * self@.height)
                by (nonlinear_arith);
            assert((4 * (self@.width * self@.height)) / 4 == self@.width * self@.height)
                by (nonlinear_arith);
        }
        let mut out: Vec<u8> = Vec::new();
        let mut p: usize = 0;
        while p < pixels
            invariant
                self.wf(),
                channel < 4,
                total == self.data@.len(),
                4 * pixels == total,
                p <= pixels,
                out@.len() == 4 * p,
                forall|j: int|
                    0 <= j < 4 * p ==> out@[j] == solo_byte(self@.data, channel as int, j),
            decreases pixels - p,
        {
            proof {
                lemma_quad_index(p as int);
            }
            let base: usize = 4 * p;
            let v = self.data[base + channel as usize];
            out.push(v);
            out.push(v);
            out.push(v);
            out.push(255);
            p = p + 1;
        }
        let r = PixelBuffer { width: self.width, height: self.height, data: out };
        proof {
            assert(r@.data =~= solo_channel_spec(self@, channel as int).data);
        }
        r
    }

    /// Unpremultiplication: each color channel is rescaled by `255 / alpha`
    /// (saturating at 255); samples with zero alpha and the alpha channel
    /// itself are left as they are.
    pub fn unpremultiply(&self) -> (r: PixelBuffer)
        requires
            self.wf(),
        ensures
            r@ == unpremultiply_spec(self@),
            r.wf(),
    {
        let total = self.data.len();
        let pixels = total / 4;
        proof {
            assert(4 * (self@.width * self@.height) == 4 * self@.width * self@.height)
                by (nonlinear_arith);
            assert((4 * (self@.width * self@.height)) / 4 == self@.width * self@.height)
                by (nonlinear_arith);
        }
        let mut out: Vec<u8> = Vec::new();
        let mut p: usize = 0;
        while p < pixels
            invariant
                self.wf(),
                total == self.data@.len(),
                4 * pixels == total,
                p <= pixels,
                out@.len() == 4 * p,
                forall|j: int| 0 <= j < 4 * p ==> out@[j] == unpre_byte(self@.data, j),
            decreases pixels - p,
        {
            proof {
                lemma_quad_index(p as int);
            }
            let base: usize = 4 * p;
            let alpha = self.data[base + 3];
            let mut c: usize = 0;
            while c < 3
                invariant
                    self.wf(),
                    total == self.data@.len(),
                    4 * pixels == total,
                    p < pixels,
                    base == 4 * p,
                    alpha == self.data@[4 * p + 3],
                    out@.len() == 4 * p + c,
                    c <= 3,
                    forall|j: int| 0 <= j < 4 * p ==> out@[j] == unpre_byte(self@.data, j),
                    forall|j: int|
                        4 * p <= j < 4 * p + c ==> out@[j] == unpre_byte(self@.data, j),
                decreases 3 - c,
            {
                proof {
                    lemma_quad_index(p as int);
                }
                let s = self.data[base + c];
                let v: u8 = if alpha == 0 {
                    s
                } else {
                    let t: u32 = s as u32 * 255 / alpha as u32;
                    if t > 255 {
                        255
                    } else {
                        t as u8
                    }
                };
                out.push(v);
                c = c + 1;
            }
            out.push(alpha);
            p = p + 1;
        }
        let r = PixelBuffer { width: self.width, height: self.height, data: out };
        proof {
            assert(r@.data =~= unpremultiply_spec(self@).data);
        }
        r
    }

    /// The sample under pixel coordinate (x, y).
    pub fn get_pixel(&self, x: u32, y: u32) -> (r: Rgba)
        requires
            self.wf(),
            x < self@.width,
            y < self@.height,
        ensures
            r == self@.pixel(x as int, y as int),
    {
        let len = self.data.len();
        proof {
            lemma_pixel_index(x as int, y as int, self@.width as int, self@.height as int);
            assert(4 * (self@.width * self@.height) == 4 * self@.width * self@.height)
                by (nonlinear_arith);
        }
        let i: usize = 4 * (y as usize * self.width as usize + x as usize);
        Rgba { r: self.data[i], g: self.data[i + 1], b: self.data[i + 2], a: self.data[i + 3] }
    }
}

} // verus!
