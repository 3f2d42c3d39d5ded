//! Resampling of single-channel 8-bit planes with a Lanczos3 filter.
use vstd::prelude::*;

verus! {

/// The samples that a Lanczos3 resize of a `width * height` plane to
/// `new_width * new_height` produces.
pub uninterp spec fn lanczos3_resized(
    src: Seq<u8>,
    width: nat,
    height: nat,
    new_width: nat,
    new_height: nat,
) -> Seq<u8>;

/// A plane of the given size can be resampled to the new size without the
/// resampler's buffers exceeding the address space.
pub open spec fn resizable(width: u32, height: u32, new_width: u32, new_height: u32) -> bool {
    &&& new_width as int * new_height as int <= usize::MAX
    &&& 4 * width as int * new_height as int <= usize::MAX
}

/// Relies on `image::imageops::resize` with `FilterType::Lanczos3` on an 8-bit
/// grayscale buffer: it returns `new_width * new_height` samples that depend on
/// the input samples and the dimensions alone, and a copy of the input when the
/// dimensions are unchanged.
#[verifier::external_body]
pub(crate) fn resize_plane(
    src: &Vec<u8>,
    width: u32,
    height: u32,
    new_width: u32,
    new_height: u32,
) -> (r: Vec<u8>)
    requires
        src@.len() == width as int * height as int,
        resizable(width, height, new_width, new_height),
    ensures
        r@ == lanczos3_resized(src@, width as nat, height as nat, new_width as nat, new_height as nat),
        r@.len() == new_width as int * new_height as int,
        new_width == width && new_height == height ==> r@ == src@,
{
    let plane = image::GrayImage::from_raw(width, height, src.clone()).unwrap();
    image::imageops::resize(&plane, new_width, new_height, image::imageops::FilterType::Lanczos3)
        .into_raw()
}

} // verus!
