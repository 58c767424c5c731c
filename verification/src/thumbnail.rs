//! Thumbnails of stored images: making one, and linking to one.

use vstd::prelude::*;
use vstd::string::StringExecFns;
use crate::config::Opt;
use crate::error::WebError;
use crate::helpers::{join_path, path_join};
use crate::THUMBNAIL_SUBDIR;

verus! {

/// The link shown for a file that has no thumbnail.
pub const PLACEHOLDER_URL: &'static str = "/recent/placeholder.png";

/// An image in memory; nothing is known of its pixels.
#[verifier::external_type_specification]
#[verifier::external_body]
pub struct ExDynamicImage(image::DynamicImage);

/// The ways to weigh the pixels of an image when its size is changed.
#[verifier::external_type_specification]
pub struct ExFilterType(image::imageops::FilterType);

/// The width of `img` in pixels, as `image::DynamicImage::width` gives it.
pub uninterp spec fn image_width(img: image::DynamicImage) -> u32;

/// The height of `img` in pixels, as `image::DynamicImage::height` gives
/// it.
pub uninterp spec fn image_height(img: image::DynamicImage) -> u32;

/// The image that `image::DynamicImage::resize_to_fill` makes of `img` for a
/// width and a height of `size` pixels with `filter`: `img` scaled until it
/// covers that square, and cropped about its centre to what the square
/// holds.
pub uninterp spec fn filled_image(
    img: image::DynamicImage,
    size: u32,
    filter: image::imageops::FilterType,
) -> image::DynamicImage;

/// An image that has pixels: it is at least one pixel wide and one high.
pub open spec fn has_pixels(img: image::DynamicImage) -> bool {
    image_width(img) > 0 && image_height(img) > 0
}

/// An image that is not too long for its thumbnail: neither its width nor
/// its height, taken `size` times, is more than a side of an image can
/// count. Scaled to cover a square of `size` pixels, such an image is never
/// cut short.
pub open spec fn scales_to(img: image::DynamicImage, size: u32) -> bool {
    image_width(img) * size <= u32::MAX && image_height(img) * size <= u32::MAX
}

/// Calls `image::DynamicImage::width`.
///
/// Trusted: that the number is a function of the image alone.
#[verifier::external_body]
fn width_of(img: &image::DynamicImage) -> (width: u32)
    ensures
        width == image_width(*img),
{
    img.width()
}

/// Calls `image::DynamicImage::height`.
///
/// Trusted: that the number is a function of the image alone.
#[verifier::external_body]
fn height_of(img: &image::DynamicImage) -> (height: u32)
    ensures
        height == image_height(*img),
{
    img.height()
}

/// Calls `image::DynamicImage::resize_to_fill` with `size` for both the
/// width and the height. It is called for images that have pixels, since
/// for others the crop is computed below zero, and with the `Triangle`
/// filter, whose weights are plain sums and products.
///
/// Trusted: that the image that comes back is a function of the image and
/// the size alone; and that it is `size` pixels wide and high where the
/// image scales to that size. There the scaled image covers the square: its
/// shorter side is scaled to `size` exactly, its longer side to no less,
/// neither is capped at the largest side an image can have, and the crop
/// takes `size` pixels of each.
#[verifier::external_body]
fn resize_to_fill(
    img: &image::DynamicImage,
    size: u32,
    filter: image::imageops::FilterType,
) -> (thumb: image::DynamicImage)
    requires
        has_pixels(*img),
        filter == image::imageops::FilterType::Triangle,
    ensures
        thumb == filled_image(*img, size, filter),
        scales_to(*img, size) ==> image_width(thumb) == size && image_height(thumb) == size,
{
    img.resize_to_fill(size, size, filter)
}

/// The thumbnail of `img`: the image scaled with the `Triangle` filter
/// until it covers a square of `size` pixels, and cropped about its centre
/// to that square.
pub open spec fn spec_thumbnail(img: image::DynamicImage, size: u32) -> image::DynamicImage {
    filled_image(img, size, image::imageops::FilterType::Triangle)
}

/// Makes the thumbnail of a file from what decoding it as an image gave:
/// the thumbnail of that image at the configured size, or nothing where the
/// file is no image or an image without pixels. The thumbnail is a square
/// of the configured size, unless the image is so long and thin that it
/// does not scale to it. Decoding the file and storing the thumbnail are
/// the caller's.
pub fn generate_thumbnail(decoded: Option<image::DynamicImage>, opt: &Opt) -> (thumb: Option<
    image::DynamicImage,
>)
    ensures
        thumb == (match decoded {
            Some(img) => if has_pixels(img) {
                Some(spec_thumbnail(img, opt.thumbnail_size))
            } else {
                None
            },
            None => None,
        }),
        match (decoded, thumb) {
            (Some(img), Some(made)) => scales_to(img, opt.thumbnail_size) ==> image_width(made)
                == opt.thumbnail_size && image_height(made) == opt.thumbnail_size,
            _ => true,
        },
{
    match decoded {
        Some(img) => {
            if width_of(&img) > 0 && height_of(&img) > 0 {
                Some(
                    resize_to_fill(&img, opt.thumbnail_size, image::imageops::FilterType::Triangle),
                )
            } else {
                None
            }
        },
        None => None,
    }
}

/// What making a thumbnail came to, given what became of storing it:
/// `false` where there was none to store because the file holds no image,
/// `true` where it was stored, and `InvalidImage` where storing it failed.
pub fn thumbnail_outcome(stored: Option<Result<(), String>>) -> (outcome: Result<bool, WebError>)
    ensures
        outcome == (match stored {
            None => Ok::<bool, WebError>(false),
            Some(Ok(_)) => Ok(true),
            Some(Err(_)) => Err(WebError::InvalidImage),
        }),
{
    match stored {
        None => Ok(false),
        Some(Ok(_)) => Ok(true),
        Some(Err(_)) => Err(WebError::InvalidImage),
    }
}

/// The link to the thumbnail of the stored file at `path`, a path below the
/// storage root: the same path below `thumbnails` where the thumbnail
/// exists, and the placeholder where it does not.
pub open spec fn spec_thumbnail_url(path: Seq<char>, thumbnail_exists: bool) -> Seq<char> {
    if thumbnail_exists {
        path_join(THUMBNAIL_SUBDIR@, path)
    } else {
        PLACEHOLDER_URL@
    }
}

/// The link to the thumbnail of the stored file at `path`, a path below the
/// storage root, given whether a thumbnail is stored for it: the link to that
/// thumbnail, or to the placeholder image.
pub fn get_thumbnail_url(path: &str, thumbnail_exists: bool) -> (url: String)
    ensures
        url@ == spec_thumbnail_url(path@, thumbnail_exists),
{
    if thumbnail_exists {
        join_path(THUMBNAIL_SUBDIR, path)
    } else {
        String::from_str(PLACEHOLDER_URL)
    }
}

} // verus!
