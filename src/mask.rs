//! The integer stages around model inference: building the model's input planes
//! from an RGBA image and bringing the model's mask back to the image's size.
use vstd::prelude::*;
use crate::compositor::RgbaBuffer;
use crate::resample::{lanczos3_resized, resizable, resize_plane};

verus! {

/// Channel `c` of every pixel of a row-major RGBA byte sequence.
pub open spec fn channel_plane(s: Seq<u8>, c: int) -> Seq<u8> {
    Seq::new((s.len() / 4) as nat, |i: int| s[4 * i + c])
}

/// Channel `c` of an image resized to a `resolution` square.
pub open spec fn resized_channel(img: RgbaBuffer, c: int, resolution: u32) -> Seq<u8> {
    lanczos3_resized(
        channel_plane(img.pixels@, c),
        img.width as nat,
        img.height as nat,
        resolution as nat,
        resolution as nat,
    )
}

/// Copies channel `c` of every pixel into a plane of its own.
pub fn extract_channel(pixels: &Vec<u8>, c: usize) -> (r: Vec<u8>)
    requires
        pixels@.len() % 4 == 0,
        c < 4,
    ensures
        r@ == channel_plane(pixels@, c as int),
{
    let total: usize = pixels.len();
    let n: usize = total / 4;
    let mut plane: Vec<u8> = Vec::with_capacity(n);
    let mut i: usize = 0;
    while i < n
        invariant
            n == pixels@.len() / 4,
            4 * n == pixels@.len(),
            total == pixels@.len(),
            c < 4,
            i <= n,
            plane@.len() == i,
            forall|j: int| 0 <= j < i ==> plane@[j] == pixels@[4 * j + c],
        decreases n - i,
    {
        plane.push(pixels[4 * i + c]);
        i = i + 1;
    }
    assert(plane@ =~= channel_plane(pixels@, c as int));
    plane
}

/// The model's input before normalization: the red, green and blue planes of
/// the image, each resized to `resolution * resolution`, one after the other
/// (plane, row, column). Alpha takes no part.
pub fn model_input_planes(img: &RgbaBuffer, resolution: u32) -> (r: Vec<u8>)
    requires
        img.wf(),
        resizable(img.width, img.height, resolution, resolution),
        3 * (resolution as int * resolution as int) <= usize::MAX,
    ensures
        r@ == resized_channel(*img, 0, resolution) + resized_channel(*img, 1, resolution)
            + resized_channel(*img, 2, resolution),
        r@.len() == 3 * (resolution as int * resolution as int),
{
    assert(img.pixels@.len() / 4 == img.width as int * img.height as int);
    let mut planes: Vec<u8> = Vec::new();
    let mut c: usize = 0;
    while c < 3
        invariant
            c <= 3,
            img.wf(),
            img.pixels@.len() / 4 == img.width as int * img.height as int,
            resizable(img.width, img.height, resolution, resolution),
            c == 0 ==> planes@ == Seq::<u8>::empty(),
            c == 1 ==> planes@ == resized_channel(*img, 0, resolution),
            c == 2 ==> planes@ == resized_channel(*img, 0, resolution) + resized_channel(
                *img,
                1,
                resolution,
            ),
            c == 3 ==> planes@ == resized_channel(*img, 0, resolution) + resized_channel(
                *img,
                1,
                resolution,
            ) + resized_channel(*img, 2, resolution),
            planes@.len() == c * (resolution as int * resolution as int),
        decreases 3 - c,
    {
        let plane = extract_channel(&img.pixels, c);
        let mut resized = resize_plane(&plane, img.width, img.height, resolution, resolution);
        planes.append(&mut resized);
        c = c + 1;
    }
    planes
}

/// Resizes the model's `resolution * resolution` mask back to the source
/// image's `width * height`.
pub fn restore_mask(model_mask: &Vec<u8>, resolution: u32, width: u32, height: u32) -> (r: Vec<u8>)
    requires
        model_mask@.len() == resolution as int * resolution as int,
        resizable(resolution, resolution, width, height),
    ensures
        r@ == lanczos3_resized(
            model_mask@,
            resolution as nat,
            resolution as nat,
            width as nat,
            height as nat,
        ),
        r@.len() == width as int * height as int,
{
    resize_plane(model_mask, resolution, resolution, width, height)
}

/// For model sides up to 1024 and images up to 4000 pixels on each side, both
/// directions of the resize meet their size requirements, so shrinking an image
/// to the model's square and growing the mask back always succeeds, and the
/// restored mask has one value per image pixel.
pub proof fn round_trip_sizes_fit(resolution: u32, width: u32, height: u32)
    requires
        resolution <= 1024,
        width <= 4000,
        height <= 4000,
    ensures
        resizable(width, height, resolution, resolution),
        resizable(resolution, resolution, width, height),
        3 * (resolution as int * resolution as int) <= usize::MAX,
{
    assert(resolution as int * resolution as int <= 1024 * 1024) by (nonlinear_arith)
        requires
            resolution <= 1024,
    ;
    assert(4 * width as int * resolution as int <= 4 * 4000 * 1024) by (nonlinear_arith)
        requires
            resolution <= 1024,
            width <= 4000,
    ;
    assert(4 * resolution as int * height as int <= 4 * 4000 * 1024) by (nonlinear_arith)
        requires
            resolution <= 1024,
            height <= 4000,
    ;
    assert(width as int * height as int <= 4000 * 4000) by (nonlinear_arith)
        requires
            width <= 4000,
            height <= 4000,
    ;
}

} // verus!
