//! Captured images as plain values: their size and their bytes, and the
//! regions that are cut out of them.

use crate::screenshot::{fits_frame, CropRect};
use vstd::prelude::*;

verus! {

/// An image in memory: four bytes a pixel (red, green, blue, alpha), the
/// pixels of a row from left to right, the rows from top to bottom.
#[derive(Clone, Debug, PartialEq, Eq)]
pub struct RawImage {
    pub width: u32,
    pub height: u32,
    pub pixels: Vec<u8>,
}

/// The mathematical value of a [`RawImage`].
pub struct ImageView {
    pub width: u32,
    pub height: u32,
    pub pixels: Seq<u8>,
}

impl View for RawImage {
    type V = ImageView;

    open spec fn view(&self) -> ImageView {
        ImageView { width: self.width, height: self.height, pixels: self.pixels@ }
    }
}

/// The value of an optional image.
pub open spec fn optional_image(image: Option<RawImage>) -> Option<ImageView> {
    match image {
        Some(i) => Some(i@),
        None => None,
    }
}

/// An image without pixels.
pub open spec fn empty_image() -> ImageView {
    ImageView { width: 0, height: 0, pixels: Seq::empty() }
}

/// Whether an image holds the bytes of each of its pixels.
pub open spec fn is_whole(image: ImageView) -> bool {
    4 * image.width * image.height <= image.pixels.len()
}

/// Where the bytes of the pixel in column `x` of row `y` begin, in an
/// image that is `width` pixels wide.
pub open spec fn pixel_offset(width: int, x: int, y: int) -> int {
    4 * (y * width + x)
}

/// The bytes of the region `rect` of an image: the pixels of the region,
/// row by row.
pub open spec fn region_pixels(image: ImageView, rect: CropRect) -> Seq<u8> {
    Seq::new(
        (4 * rect.width * rect.height) as nat,
        |k: int|
            {
                let column: int = (k / 4) % (rect.width as int);
                let row: int = (k / 4) / (rect.width as int);
                image.pixels[pixel_offset(image.width as int, rect.x + column, rect.y + row) + k
                    % 4]
            },
    )
}

/// The region `rect` of an image, as an image of its own.
pub open spec fn region_of(image: ImageView, rect: CropRect) -> ImageView {
    ImageView { width: rect.width, height: rect.height, pixels: region_pixels(image, rect) }
}

/// The region `rect` of an image, where the image is whole and holds the
/// region.
pub open spec fn cropped(image: ImageView, rect: CropRect) -> Option<ImageView> {
    if is_whole(image) && fits_frame(rect, image.width, image.height) {
        Some(region_of(image, rect))
    } else {
        None
    }
}

/// Asks `image::ImageBuffer::from_raw` whether the bytes make an RGBA image
/// of the given size. It accepts a buffer exactly if the buffer holds four
/// bytes for each pixel; bytes beyond those are allowed.
#[verifier::external_body]
fn holds_every_pixel(image: &RawImage) -> (whole: bool)
    ensures
        whole == is_whole(image@),
{
    image::ImageBuffer::<image::Rgba<u8>, &[u8]>::from_raw(
        image.width,
        image.height,
        image.pixels.as_slice(),
    ).is_some()
}

/// Cuts a region out of an image with `image::DynamicImage::crop_imm`, on
/// an RGBA image made of the bytes by `image::RgbaImage::from_raw`. For a
/// region inside the image, `crop_imm` copies the region's pixels, row by
/// row, into a new image of the region's size.
#[verifier::external_body]
pub(crate) fn cut_region(image: &RawImage, rect: CropRect) -> (region: RawImage)
    requires
        is_whole(image@),
        fits_frame(rect, image.width, image.height),
    ensures
        region@ == region_of(image@, rect),
{
    let source =
        image::RgbaImage::from_raw(image.width, image.height, image.pixels.clone()).unwrap();
    let cut = image::DynamicImage::ImageRgba8(source)
        .crop_imm(rect.x, rect.y, rect.width, rect.height)
        .into_rgba8();
    RawImage { width: cut.width(), height: cut.height(), pixels: cut.into_raw() }
}

impl RawImage {
    /// An image without pixels.
    pub fn empty() -> (image: RawImage)
        ensures
            image@ == empty_image(),
    {
        RawImage { width: 0, height: 0, pixels: Vec::new() }
    }

    /// Whether the image holds the bytes of each of its pixels.
    pub fn is_complete(&self) -> (whole: bool)
        ensures
            whole == is_whole(self@),
    {
        holds_every_pixel(self)
    }

    /// Cuts the region `rect` out of the image. There is no region where
    /// the image lacks bytes or `rect` reaches beyond it.
    pub fn crop(&self, rect: CropRect) -> (region: Option<RawImage>)
        ensures
            optional_image(region) == cropped(self@, rect),
    {
        if !self.is_complete() {
            return None;
        }
        if rect.x > self.width || rect.width > self.width - rect.x {
            return None;
        }
        if rect.y > self.height || rect.height > self.height - rect.y {
            return None;
        }
        Some(cut_region(self, rect))
    }
}

} // verus!
