//! The RGBA pixel buffer, held in the image crate's `ImageBuffer`.

use vstd::prelude::*;

verus! {

/// An RGBA image of the image crate. Verus refuses a declaration of
/// `image::ImageBuffer` (its `Pixel` bound is an outside trait), so the
/// buffer is held here and reached only through the functions below.
#[verifier::external_body]
pub struct RgbaCanvas {
    img: image::RgbaImage,
}

/// The samples of an RGBA image, row by row, four per pixel.
pub uninterp spec fn rgba_samples(img: RgbaCanvas) -> Seq<u8>;

/// The width of an RGBA image in pixels.
pub uninterp spec fn rgba_width(img: RgbaCanvas) -> nat;

/// The height of an RGBA image in pixels.
pub uninterp spec fn rgba_height(img: RgbaCanvas) -> nat;

/// Index of the first sample of pixel `(x, y)` on a canvas `width` pixels wide.
pub open spec fn sample_index(width: int, x: int, y: int) -> int {
    (y * width + x) * 4
}

/// Relies on image::ImageBuffer::new: a `width` x `height` image whose
/// samples are all zero (fully transparent); it panics only when the sample
/// count overflows `usize`.
#[verifier::external_body]
pub(crate) fn new_canvas(width: u32, height: u32) -> (r: RgbaCanvas)
    requires
        width * height * 4 <= usize::MAX,
    ensures
        rgba_samples(r) == Seq::new((width * height * 4) as nat, |i: int| 0u8),
        rgba_width(r) == width,
        rgba_height(r) == height,
{
    RgbaCanvas { img: image::ImageBuffer::new(width, height) }
}

/// Relies on image::ImageBuffer::get_pixel: the four samples of pixel
/// `(x, y)`, which must lie in the image.
#[verifier::external_body]
pub(crate) fn get_pixel(img: &RgbaCanvas, x: u32, y: u32) -> (r: [u8; 4])
    requires
        x < rgba_width(*img),
        y < rgba_height(*img),
        rgba_samples(*img).len() == rgba_width(*img) * rgba_height(*img) * 4,
    ensures
        r@ == rgba_samples(*img).subrange(
            sample_index(rgba_width(*img) as int, x as int, y as int),
            sample_index(rgba_width(*img) as int, x as int, y as int) + 4,
        ),
{
    img.img.get_pixel(x, y).0
}

/// Relies on image::ImageBuffer::put_pixel: replaces the four samples of
/// pixel `(x, y)`, which must lie in the image, and nothing else.
#[verifier::external_body]
pub(crate) fn put_pixel(img: &mut RgbaCanvas, x: u32, y: u32, px: [u8; 4])
    requires
        x < rgba_width(*old(img)),
        y < rgba_height(*old(img)),
        rgba_samples(*old(img)).len() == rgba_width(*old(img)) * rgba_height(*old(img)) * 4,
    ensures
        rgba_width(*final(img)) == rgba_width(*old(img)),
        rgba_height(*final(img)) == rgba_height(*old(img)),
        rgba_samples(*final(img)) == rgba_samples(*old(img)).subrange(
            0,
            sample_index(rgba_width(*old(img)) as int, x as int, y as int),
        ) + px@ + rgba_samples(*old(img)).subrange(
            sample_index(rgba_width(*old(img)) as int, x as int, y as int) + 4,
            rgba_samples(*old(img)).len() as int,
        ),
{
    img.img.put_pixel(x, y, image::Rgba(px))
}

/// Relies on image::ImageBuffer::into_raw: the image's samples.
#[verifier::external_body]
pub(crate) fn into_raw(img: RgbaCanvas) -> (r: Vec<u8>)
    ensures
        r@ == rgba_samples(img),
{
    img.img.into_raw()
}

} // verus!
