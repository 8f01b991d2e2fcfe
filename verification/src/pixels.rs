//! The decoded-image model and the pixel normalizer.
//!
//! A decoded image is width, height, a channel layout and a flat,
//! row-major byte buffer with one byte per channel. The normalizer turns
//! any supported layout into interleaved RGB: alpha and extra channels
//! are dropped, grayscale is expanded to three identical channels.

use vstd::prelude::*;

verus! {

/// Channel layout of a decoded pixel buffer, one byte per channel.
#[derive(Clone, Copy, Debug, PartialEq, Eq, Structural)]
pub enum PixelLayout {
    /// One channel: luminance.
    Gray,
    /// Two channels: luminance, alpha.
    GrayAlpha,
    /// Three channels: red, green, blue.
    Rgb,
    /// Four channels: red, green, blue, alpha.
    Rgba,
}

impl PixelLayout {
    /// Number of bytes each pixel occupies in this layout.
    pub open spec fn spec_channel_count(self) -> int {
        match self {
            PixelLayout::Gray => 1,
            PixelLayout::GrayAlpha => 2,
            PixelLayout::Rgb => 3,
            PixelLayout::Rgba => 4,
        }
    }

    /// Number of bytes each pixel occupies in this layout.
    pub fn channel_count(&self) -> (n: usize)
        ensures
            n == self.spec_channel_count(),
    {
        match self {
            PixelLayout::Gray => 1,
            PixelLayout::GrayAlpha => 2,
            PixelLayout::Rgb => 3,
            PixelLayout::Rgba => 4,
        }
    }

    /// Whether the layout carries distinct red, green and blue channels
    /// (as opposed to a single luminance channel).
    pub open spec fn is_color(self) -> bool {
        self.spec_channel_count() >= 3
    }
}

/// An image decoded into memory: dimensions, channel layout, and a flat
/// row-major pixel buffer, one byte per channel, no padding.
pub struct DecodedImage {
    /// Width in pixels.
    pub width: usize,
    /// Height in pixels.
    pub height: usize,
    /// Channel layout of `pixels`.
    pub layout: PixelLayout,
    /// Flat pixel data: `width * height` pixels of
    /// `layout.spec_channel_count()` bytes each, row-major.
    pub pixels: Vec<u8>,
}

impl DecodedImage {
    /// Well-formedness: positive dimensions and a buffer of exactly
    /// one `layout`-sized entry per pixel.
    pub open spec fn wf(self) -> bool {
        &&& self.width >= 1
        &&& self.height >= 1
        &&& self.pixels@.len() == self.width * self.height * self.layout.spec_channel_count()
    }

    /// Byte `ch` (0 = R, 1 = G, 2 = B) of pixel `i` after normalization
    /// to RGB: color layouts keep their leading R, G, B bytes and drop
    /// the rest; grayscale layouts repeat the luminance byte.
    pub open spec fn rgb_byte(self, i: int, ch: int) -> u8 {
        let c = self.layout.spec_channel_count();
        if self.layout.is_color() {
            self.pixels@[c * i + ch]
        } else {
            self.pixels@[c * i]
        }
    }

    /// The normalized RGB buffer as a sequence: `width * height * 3`
    /// bytes, pixel `i` at positions `3*i .. 3*i + 3`.
    pub open spec fn rgb_view(self) -> Seq<u8> {
        Seq::new((self.width * self.height * 3) as nat, |j: int| self.rgb_byte(j / 3, j % 3))
    }

    /// Builds a well-formed image, or returns `None` when the dimensions
    /// are degenerate or the buffer does not hold exactly one
    /// `layout`-sized entry per pixel.
    pub fn new(width: usize, height: usize, layout: PixelLayout, pixels: Vec<u8>) -> (r: Option<
        DecodedImage,
    >)
        ensures
            r is Some <==> (width >= 1 && height >= 1 && pixels@.len() == width * height
                * layout.spec_channel_count()),
            r is Some ==> {
                &&& r->0.width == width
                &&& r->0.height == height
                &&& r->0.layout == layout
                &&& r->0.pixels@ == pixels@
                &&& r->0.wf()
            },
    {
        let len = pixels.len();
        if width == 0 || height == 0 {
            return None;
        }
        let c = layout.channel_count();
        proof {
            lemma_rearrange_whc(width as int, height as int, c as int);
            vstd::arithmetic::mul::lemma_mul_inequality(
                1,
                height as int,
                width as int * c as int,
            );
            vstd::arithmetic::mul::lemma_mul_is_commutative(
                height as int,
                width as int * c as int,
            );
            assert(width as int * c as int <= (width as int * height as int) * c as int);
        }
        let per_row = match width.checked_mul(c) {
            Some(n) => n,
            None => {
                return None;
            },
        };
        let total = match per_row.checked_mul(height) {
            Some(n) => n,
            None => {
                return None;
            },
        };
        if len != total {
            return None;
        }
        Some(DecodedImage { width, height, layout, pixels })
    }

    /// Produces the normalized RGB buffer: `width * height * 3` bytes,
    /// row-major, channel order R, G, B. Color layouts keep their leading
    /// R, G, B bytes and drop alpha; grayscale layouts repeat the
    /// luminance byte three times. Normalization cannot fail on a
    /// well-formed image.
    pub fn normalize_rgb(&self) -> (out: Vec<u8>)
        requires
            self.wf(),
            self.width * self.height * 3 <= usize::MAX,
        ensures
            out@ == self.rgb_view(),
            out@.len() == self.width * self.height * 3,
    {
        let ghost me = *self;
        let c = self.layout.channel_count();
        let is_color = c >= 3;
        proof {
            vstd::arithmetic::mul::lemma_mul_inequality(
                1,
                3,
                self.width as int * self.height as int,
            );
            vstd::arithmetic::mul::lemma_mul_is_commutative(
                3,
                self.width as int * self.height as int,
            );
        }
        let npix = self.width * self.height;
        let plen = self.pixels.len();
        let mut out: Vec<u8> = Vec::new();
        let mut i: usize = 0;
        let mut s: usize = 0;
        while i < npix
            invariant
                me.wf(),
                self == &me,
                c == me.layout.spec_channel_count(),
                is_color == me.layout.is_color(),
                npix == me.width * me.height,
                npix * 3 <= usize::MAX,
                plen == me.pixels@.len(),
                me.pixels@.len() == npix * c,
                i <= npix,
                s == i * c,
                out@.len() == 3 * i,
                forall|j: int| 0 <= j < out@.len() ==> out@[j] == me.rgb_view()[j],
            decreases npix - i,
        {
            proof {
                vstd::arithmetic::mul::lemma_mul_inequality(i + 1, npix as int, c as int);
                assert((i + 1) * c == i * c + c) by (nonlinear_arith);
                assert(s + c <= me.pixels@.len());
            }
            let r = self.pixels[s];
            let g: u8;
            let b: u8;
            if is_color {
                g = self.pixels[s + 1];
                b = self.pixels[s + 2];
            } else {
                g = r;
                b = r;
            }
            out.push(r);
            out.push(g);
            out.push(b);
            proof {
                lemma_rgb_view_pixel(me, i as int);
                assert(me.rgb_view()[3 * i] == me.rgb_byte(i as int, 0));
                assert(forall|j: int|
                    0 <= j < 3 * i ==> out@[j] == #[trigger] me.rgb_view()[j]);
            }
            i = i + 1;
            s = s + c;
        }
        proof {
            assert(out@.len() == me.rgb_view().len());
            assert(out@ =~= me.rgb_view());
        }
        out
    }
}

/// Normalization is idempotent: an image already in RGB layout
/// normalizes to exactly its own pixel buffer, so normalizing a
/// normalized buffer a second time changes nothing.
pub proof fn lemma_normalize_rgb_identity(img: DecodedImage)
    requires
        img.wf(),
        img.layout is Rgb,
    ensures
        img.rgb_view() == img.pixels@,
{
    let n = img.width * img.height;
    assert forall|j: int| 0 <= j < n * 3 implies img.rgb_view()[j] == img.pixels@[j] by {
        vstd::arithmetic::div_mod::lemma_fundamental_div_mod(j, 3);
        vstd::arithmetic::div_mod::lemma_mod_pos_bound(j, 3);
        let i = j / 3;
        let ch = j % 3;
        assert(j == 3 * i + ch);
        assert(0 <= i < n);
        assert(img.rgb_byte(i, ch) == img.pixels@[3 * i + ch]);
    }
    assert(img.rgb_view() =~= img.pixels@);
}

/// The three bytes of pixel `i` in the normalized view sit at positions
/// `3*i`, `3*i + 1` and `3*i + 2` and equal `rgb_byte(i, 0..3)`.
proof fn lemma_rgb_view_pixel(img: DecodedImage, i: int)
    requires
        img.wf(),
        0 <= i < img.width * img.height,
    ensures
        img.rgb_view().len() == img.width * img.height * 3,
        img.rgb_view()[3 * i] == img.rgb_byte(i, 0),
        img.rgb_view()[3 * i + 1] == img.rgb_byte(i, 1),
        img.rgb_view()[3 * i + 2] == img.rgb_byte(i, 2),
{
    let n = img.width * img.height;
    vstd::arithmetic::mul::lemma_mul_inequality(i + 1, n, 3);
    assert((i + 1) * 3 == 3 * i + 3) by (nonlinear_arith);
    assert(3 * i + 3 <= n * 3);
    vstd::arithmetic::mul::lemma_mul_is_commutative(n, 3);
    vstd::arithmetic::div_mod::lemma_fundamental_div_mod_converse(3 * i, 3, i, 0);
    vstd::arithmetic::div_mod::lemma_fundamental_div_mod_converse(3 * i + 1, 3, i, 1);
    vstd::arithmetic::div_mod::lemma_fundamental_div_mod_converse(3 * i + 2, 3, i, 2);
}

/// `(w * c) * h == (w * h) * c`: the buffer length counted by rows
/// equals the length counted by pixels.
proof fn lemma_rearrange_whc(w: int, h: int, c: int)
    ensures
        (w * c) * h == (w * h) * c,
{
    vstd::arithmetic::mul::lemma_mul_is_associative(w, c, h);
    vstd::arithmetic::mul::lemma_mul_is_commutative(c, h);
    vstd::arithmetic::mul::lemma_mul_is_associative(w, h, c);
}

} // verus!
