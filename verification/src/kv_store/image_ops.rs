//! The trusted boundary to the `image` crate: decoding a payload, the pixel
//! transforms, and re-encoding a bitmap as PNG. Each result that cannot be
//! written out in a few lines is given a name, and the verified code speaks
//! of those names.
use vstd::prelude::*;

verus! {

#[verifier::external_type_specification]
#[verifier::external_body]
pub struct ExDynamicImage(image::DynamicImage);

#[verifier::external_type_specification]
#[verifier::external_body]
pub struct ExImageError(image::ImageError);

/// What a byte sequence decodes to: `Some` decoded bitmap when the bytes are
/// a well-formed image, `None` when they are not.
pub uninterp spec fn image_from_bytes(bytes: Seq<u8>) -> Option<image::DynamicImage>;

/// The luminance-preserving gray rendition of a bitmap.
pub uninterp spec fn grayscale_of(img: image::DynamicImage) -> image::DynamicImage;

/// The rendition of a bitmap resized to fit within `width` x `height` with
/// its aspect ratio preserved.
pub uninterp spec fn thumbnail_of(
    img: image::DynamicImage,
    width: u32,
    height: u32,
) -> image::DynamicImage;

/// The PNG serialization of a bitmap: `Some` bytes when the bitmap's pixel
/// format can be written as PNG, `None` when it cannot.
pub uninterp spec fn png_bytes_of(img: image::DynamicImage) -> Option<Seq<u8>>;

/// Relies on `image::load_from_memory`: whether and to what a byte slice
/// decodes is a function of the bytes alone.
#[verifier::external_body]
pub(crate) fn load_image(bytes: &Vec<u8>) -> (r: Result<
    image::DynamicImage,
    image::ImageError,
>)
    ensures
        r matches Ok(img) ==> image_from_bytes(bytes@) == Some(img),
        r matches Err(_) ==> image_from_bytes(bytes@) is None,
{
    image::load_from_memory(bytes.as_slice())
}

/// Relies on `image::DynamicImage::grayscale`: the gray rendition is computed
/// from the pixels alone, and the input is not touched.
#[verifier::external_body]
pub(crate) fn grayscale_image(img: &image::DynamicImage) -> (r: image::DynamicImage)
    ensures
        r == grayscale_of(*img),
{
    img.grayscale()
}

/// Relies on `image::DynamicImage::thumbnail`: the resized rendition is
/// computed from the pixels and the bounds alone, and the input is not
/// touched.
#[verifier::external_body]
pub(crate) fn thumbnail_image(img: &image::DynamicImage, width: u32, height: u32) -> (r:
    image::DynamicImage)
    ensures
        r == thumbnail_of(*img, width, height),
{
    img.thumbnail(width, height)
}

/// Relies on `image::DynamicImage::write_to` with the PNG format: whether and
/// to what a bitmap serializes is a function of its pixels alone.
#[verifier::external_body]
pub(crate) fn encode_png(img: &image::DynamicImage) -> (r: Result<Vec<u8>, image::ImageError>)
    ensures
        r matches Ok(v) ==> png_bytes_of(*img) == Some(v@),
        r matches Err(_) ==> png_bytes_of(*img) is None,
{
    let mut cursor = std::io::Cursor::new(Vec::new());
    match img.write_to(&mut cursor, image::ImageOutputFormat::Png) {
        Ok(()) => Ok(cursor.into_inner()),
        Err(e) => Err(e),
    }
}

/// Relies on `image::DynamicImage`'s `Clone`: the copy holds the same pixels.
#[verifier::external_body]
pub(crate) fn clone_image(img: &image::DynamicImage) -> (r: image::DynamicImage)
    ensures
        r == *img,
{
    img.clone()
}

} // verus!
