//! Applying a saliency mask to an RGBA image, then despill and low-alpha cleanup.
use vstd::prelude::*;

verus! {

/// Red component of the background reference color.
pub const BACKGROUND_R: u8 = 255;

/// Green component of the background reference color.
pub const BACKGROUND_G: u8 = 255;

/// Blue component of the background reference color.
pub const BACKGROUND_B: u8 = 255;

/// Largest per-channel distance at which a color counts as background.
pub const TOLERANCE: u8 = 10;

/// Despill strength, in percent: a despilled channel keeps this share of its value.
pub const DESPILL_PERCENT: u16 = 50;

/// Pixels whose alpha is below this value become fully transparent.
pub const MIN_ALPHA: u8 = 10;

/// One RGBA pixel as (red, green, blue, alpha).
pub type Pixel = (u8, u8, u8, u8);

/// An RGBA image: `width * height` pixels, row-major, four bytes each.
pub struct RgbaBuffer {
    pub width: u32,
    pub height: u32,
    pub pixels: Vec<u8>,
}

impl RgbaBuffer {
    /// The byte buffer holds exactly four bytes per pixel.
    pub open spec fn wf(&self) -> bool {
        self.pixels@.len() == self.width as int * self.height as int * 4
    }

    /// Number of pixels in the image.
    pub open spec fn pixel_count(&self) -> int {
        self.width as int * self.height as int
    }
}

/// The `i`-th pixel of a row-major RGBA byte sequence.
pub open spec fn pixel_at(s: Seq<u8>, i: int) -> Pixel {
    (s[4 * i], s[4 * i + 1], s[4 * i + 2], s[4 * i + 3])
}

/// Absolute distance of two channel values.
pub open spec fn channel_distance(a: u8, b: u8) -> int {
    if a >= b { a - b } else { b - a }
}

/// The color is within the tolerance of the background reference on every channel.
pub open spec fn near_background(r: u8, g: u8, b: u8) -> bool {
    &&& channel_distance(r, BACKGROUND_R) <= TOLERANCE
    &&& channel_distance(g, BACKGROUND_G) <= TOLERANCE
    &&& channel_distance(b, BACKGROUND_B) <= TOLERANCE
}

/// Alpha after applying a mask value: `floor(alpha * mask / 255)`.
pub open spec fn masked_alpha(alpha: u8, mask: u8) -> u8 {
    (alpha as int * mask as int / 255) as u8
}

/// A channel darkened by the despill strength.
pub open spec fn darkened(c: u8) -> u8 {
    (c as int * DESPILL_PERCENT as int / 100) as u8
}

/// Mask application on one pixel: only alpha changes.
pub open spec fn mask_pixel(p: Pixel, mask: u8) -> Pixel {
    (p.0, p.1, p.2, masked_alpha(p.3, mask))
}

/// Despill on one pixel: a visible pixel near the background color becomes
/// transparent and darkened; any other pixel is kept.
pub open spec fn despill_pixel(p: Pixel) -> Pixel {
    if p.3 > 0 && near_background(p.0, p.1, p.2) {
        (darkened(p.0), darkened(p.1), darkened(p.2), 0)
    } else {
        p
    }
}

/// Cleanup on one pixel: alpha below the minimum snaps to zero.
pub open spec fn cleanup_pixel(p: Pixel) -> Pixel {
    if p.3 < MIN_ALPHA {
        (p.0, p.1, p.2, 0)
    } else {
        p
    }
}

/// The three passes on one pixel, in order.
pub open spec fn composite_pixel(p: Pixel, mask: u8) -> Pixel {
    cleanup_pixel(despill_pixel(mask_pixel(p, mask)))
}

fn channel_distance_exec(a: u8, b: u8) -> (r: u8)
    ensures
        r as int == channel_distance(a, b),
{
    if a >= b {
        a - b
    } else {
        b - a
    }
}

fn darken_channel(c: u8) -> (r: u8)
    ensures
        r == darkened(c),
{
    let v: u16 = c as u16 * DESPILL_PERCENT / 100;
    assert(v <= 255) by (nonlinear_arith)
        requires
            v == c as int * 50 / 100,
            c <= 255,
    ;
    v as u8
}

/// Multiplies each pixel's alpha by the mask value at the same position,
/// divided by 255 with truncation; color channels are kept.
pub fn apply_mask(pixels: &mut Vec<u8>, mask: &Vec<u8>)
    requires
        old(pixels)@.len() == 4 * mask@.len(),
    ensures
        final(pixels)@.len() == old(pixels)@.len(),
        forall|i: int|
            0 <= i < mask@.len() ==> #[trigger] pixel_at(final(pixels)@, i) == mask_pixel(
                pixel_at(old(pixels)@, i),
                mask@[i],
            ),
{
    let n: usize = mask.len();
    let total: usize = pixels.len();
    let mut i: usize = 0;
    while i < n
        invariant
            n == mask@.len(),
            i <= n,
            total == 4 * n,
            pixels@.len() == 4 * n,
            forall|j: int|
                0 <= j < i ==> #[trigger] pixel_at(pixels@, j) == mask_pixel(
                    pixel_at(old(pixels)@, j),
                    mask@[j],
                ),
            forall|j: int| i <= j < n ==> #[trigger] pixel_at(pixels@, j) == pixel_at(old(pixels)@, j),
        decreases n - i,
    {
        let ghost prev = pixels@;
        let a: u8 = pixels[4 * i + 3];
        let m: u8 = mask[i];
        assert(a as int * m as int <= 255 * 255) by (nonlinear_arith)
            requires
                a <= 255,
                m <= 255,
        ;
        let v: u16 = a as u16 * m as u16 / 255;
        pixels.set(4 * i + 3, v as u8);
        proof {
            assert(pixel_at(prev, i as int) == pixel_at(old(pixels)@, i as int));
            assert(pixel_at(pixels@, i as int) == mask_pixel(pixel_at(old(pixels)@, i as int), mask@[i as int]));
            assert forall|j: int| 0 <= j < n && j != i implies #[trigger] pixel_at(pixels@, j)
                == pixel_at(prev, j) by {}
        }
        i = i + 1;
    }
}

/// Makes every visible pixel whose color is near the background reference fully
/// transparent and darkens its color channels.
pub fn clean_white_halo(pixels: &mut Vec<u8>)
    requires
        old(pixels)@.len() % 4 == 0,
    ensures
        final(pixels)@.len() == old(pixels)@.len(),
        forall|i: int|
            0 <= i < old(pixels)@.len() / 4 ==> #[trigger] pixel_at(final(pixels)@, i)
                == despill_pixel(pixel_at(old(pixels)@, i)),
{
    let total: usize = pixels.len();
    let n: usize = total / 4;
    let mut i: usize = 0;
    while i < n
        invariant
            n == old(pixels)@.len() / 4,
            4 * n == old(pixels)@.len(),
            i <= n,
            total == 4 * n,
            pixels@.len() == 4 * n,
            forall|j: int|
                0 <= j < i ==> #[trigger] pixel_at(pixels@, j) == despill_pixel(
                    pixel_at(old(pixels)@, j),
                ),
            forall|j: int| i <= j < n ==> #[trigger] pixel_at(pixels@, j) == pixel_at(old(pixels)@, j),
        decreases n - i,
    {
        let ghost prev = pixels@;
        let r: u8 = pixels[4 * i];
        let g: u8 = pixels[4 * i + 1];
        let b: u8 = pixels[4 * i + 2];
        let a: u8 = pixels[4 * i + 3];
        if a > 0 {
            let rd = channel_distance_exec(r, BACKGROUND_R);
            let gd = channel_distance_exec(g, BACKGROUND_G);
            let bd = channel_distance_exec(b, BACKGROUND_B);
            if rd <= TOLERANCE && gd <= TOLERANCE && bd <= TOLERANCE {
                let dr = darken_channel(r);
                let dg = darken_channel(g);
                let db = darken_channel(b);
                pixels.set(4 * i + 3, 0);
                pixels.set(4 * i, dr);
                pixels.set(4 * i + 1, dg);
                pixels.set(4 * i + 2, db);
            }
        }
        proof {
            assert(pixel_at(prev, i as int) == pixel_at(old(pixels)@, i as int));
            assert(pixel_at(pixels@, i as int) == despill_pixel(pixel_at(old(pixels)@, i as int)));
            assert forall|j: int| 0 <= j < n && j != i implies #[trigger] pixel_at(pixels@, j)
                == pixel_at(prev, j) by {}
        }
        i = i + 1;
    }
}

/// Snaps every pixel whose alpha is below the minimum to fully transparent.
pub fn refine_alpha(pixels: &mut Vec<u8>)
    requires
        old(pixels)@.len() % 4 == 0,
    ensures
        final(pixels)@.len() == old(pixels)@.len(),
        forall|i: int|
            0 <= i < old(pixels)@.len() / 4 ==> #[trigger] pixel_at(final(pixels)@, i)
                == cleanup_pixel(pixel_at(old(pixels)@, i)),
{
    let total: usize = pixels.len();
    let n: usize = total / 4;
    let mut i: usize = 0;
    while i < n
        invariant
            n == old(pixels)@.len() / 4,
            4 * n == old(pixels)@.len(),
            i <= n,
            total == 4 * n,
            pixels@.len() == 4 * n,
            forall|j: int|
                0 <= j < i ==> #[trigger] pixel_at(pixels@, j) == cleanup_pixel(
                    pixel_at(old(pixels)@, j),
                ),
            forall|j: int| i <= j < n ==> #[trigger] pixel_at(pixels@, j) == pixel_at(old(pixels)@, j),
        decreases n - i,
    {
        let ghost prev = pixels@;
        if pixels[4 * i + 3] < MIN_ALPHA {
            pixels.set(4 * i + 3, 0);
        }
        proof {
            assert(pixel_at(prev, i as int) == pixel_at(old(pixels)@, i as int));
            assert(pixel_at(pixels@, i as int) == cleanup_pixel(pixel_at(old(pixels)@, i as int)));
            assert forall|j: int| 0 <= j < n && j != i implies #[trigger] pixel_at(pixels@, j)
                == pixel_at(prev, j) by {}
        }
        i = i + 1;
    }
}

/// Applies `mask` to the image's alpha channel, then despills, then removes
/// low-alpha noise. Width, height and color channels of untouched pixels are kept.
pub fn composite(img: &mut RgbaBuffer, mask: &Vec<u8>)
    requires
        old(img).wf(),
        mask@.len() == old(img).pixel_count(),
    ensures
        final(img).width == old(img).width,
        final(img).height == old(img).height,
        final(img).wf(),
        forall|i: int|
            0 <= i < old(img).pixel_count() ==> #[trigger] pixel_at(final(img).pixels@, i)
                == composite_pixel(pixel_at(old(img).pixels@, i), mask@[i]),
{
    let ghost original = img.pixels@;
    apply_mask(&mut img.pixels, mask);
    let ghost masked = img.pixels@;
    clean_white_halo(&mut img.pixels);
    let ghost despilled = img.pixels@;
    refine_alpha(&mut img.pixels);
    assert forall|i: int| 0 <= i < mask@.len() implies #[trigger] pixel_at(img.pixels@, i)
        == composite_pixel(pixel_at(original, i), mask@[i]) by {
        assert(pixel_at(masked, i) == mask_pixel(pixel_at(original, i), mask@[i]));
        assert(pixel_at(despilled, i) == despill_pixel(pixel_at(masked, i)));
        assert(pixel_at(img.pixels@, i) == cleanup_pixel(pixel_at(despilled, i)));
    }
}

/// A pixel that is already fully transparent is left unchanged by despill and
/// stays fully transparent through cleanup; whatever the mask, compositing
/// keeps it fully transparent.
pub proof fn transparent_pixel_stays_transparent(p: Pixel, mask: u8)
    requires
        p.3 == 0,
    ensures
        despill_pixel(p) == p,
        cleanup_pixel(despill_pixel(p)).3 == 0,
        composite_pixel(p, mask).3 == 0,
{
    assert(masked_alpha(0, mask) == 0);
}

} // verus!
