//! The trusted boundary to the `image` crate. Everything the facade knows
//! about a decoded raster lives in uninterpreted names: its dimensions, its
//! pixel map (what `get_pixel` yields at each coordinate), and whether its
//! in-memory layout is 8-bit RGBA; a fourth name stands for the result of
//! the library's hue rotation, whose floating-point arithmetic the facade
//! does not restate. Each wrapper states, over those names, what the called
//! function does.

use vstd::prelude::*;

use image::GenericImage;
use image::GenericImageView;

use crate::format::{Filter, Format};
use crate::model::{rect, ImgModel};
use crate::pixel::Pixel;

verus! {

#[verifier::external_type_specification]
#[verifier::external_body]
pub struct ExDynamicImage(image::DynamicImage);

#[verifier::external_type_specification]
#[verifier::external_body]
pub struct ExImageError(image::ImageError);

/// The width and height of a raster.
pub uninterp spec fn dyn_dims(d: image::DynamicImage) -> (u32, u32);

/// The pixel at each coordinate of a raster, as the 8-bit RGBA value that
/// reading it yields.
pub uninterp spec fn dyn_pixels(d: image::DynamicImage) -> Map<(int, int), Pixel>;

/// Whether the raster is stored as an 8-bit RGBA buffer. Only on such a
/// buffer do writes store the given pixel verbatim.
pub uninterp spec fn dyn_is_rgba8(d: image::DynamicImage) -> bool;

/// What hue rotation by `degrees` makes of one pixel: a fixed function of
/// the pixel and the angle alone.
pub uninterp spec fn hue_rotated(p: Pixel, degrees: i32) -> Pixel;

/// Whether a byte sequence decodes as some supported image: decoding is a
/// fixed function of the bytes alone.
pub uninterp spec fn decode_ok(data: Seq<u8>) -> bool;

/// The image that a decodable byte sequence decodes to.
pub uninterp spec fn decoded_of(data: Seq<u8>) -> ImgModel;

/// Whether the encoder accepts an image for a container: a fixed function
/// of the image value and the format alone.
pub uninterp spec fn encode_ok(m: ImgModel, f: Format) -> bool;

/// The byte sequence that encoding an accepted image produces: encoding is
/// deterministic in the image value and the format.
pub uninterp spec fn encoded_of(m: ImgModel, f: Format) -> Seq<u8>;

/// The abstract value of a raster.
pub open spec fn raster_model(d: image::DynamicImage) -> ImgModel {
    ImgModel {
        width: dyn_dims(d).0 as int,
        height: dyn_dims(d).1 as int,
        pix: dyn_pixels(d),
    }
}

/// The pixel map covers exactly the coordinate rectangle.
pub open spec fn dyn_wf(d: image::DynamicImage) -> bool {
    dyn_pixels(d).dom() == rect(dyn_dims(d).0 as int, dyn_dims(d).1 as int)
}

/// Hue rotation of a whole image, pointwise.
pub open spec fn spec_huerotate(m: ImgModel, degrees: i32) -> ImgModel {
    m.map_pixels(|p: Pixel| hue_rotated(p, degrees))
}

/// Relies on image::load_from_memory: decodes a byte buffer, auto-detecting
/// the container format from its magic bytes. Decoding depends on the bytes
/// alone: it succeeds exactly on decodable input and yields the image those
/// bytes describe, whose pixel map covers its rectangle.
#[verifier::external_body]
pub(crate) fn decode_raw(data: &[u8]) -> (r: Result<image::DynamicImage, image::ImageError>)
    ensures
        (r is Ok) == decode_ok(data@),
        r matches Ok(d) ==> dyn_wf(d) && raster_model(d) == decoded_of(data@),
{
    image::load_from_memory(data)
}

/// Relies on image::DynamicImage::to_rgba8: converts any raster to an 8-bit
/// RGBA buffer, keeping its dimensions and the RGBA value of every pixel.
#[verifier::external_body]
pub(crate) fn to_rgba8_raw(d: &image::DynamicImage) -> (r: image::DynamicImage)
    ensures
        dyn_is_rgba8(r),
        dyn_wf(r),
        raster_model(r) == raster_model(*d),
{
    image::DynamicImage::ImageRgba8(d.to_rgba8())
}

/// Relies on image::DynamicImage::width and height.
#[verifier::external_body]
pub(crate) fn dims_raw(d: &image::DynamicImage) -> (r: (u32, u32))
    ensures
        r == dyn_dims(*d),
{
    (d.width(), d.height())
}

/// Relies on image::GenericImageView::get_pixel, which panics outside the
/// rectangle and otherwise reads the pixel as 8-bit RGBA.
#[verifier::external_body]
pub(crate) fn get_pixel_raw(d: &image::DynamicImage, x: u32, y: u32) -> (p: Pixel)
    requires
        raster_model(*d).in_bounds(x as int, y as int),
    ensures
        p == dyn_pixels(*d)[(x as int, y as int)],
{
    let q = d.get_pixel(x, y);
    Pixel { r: q.0[0], g: q.0[1], b: q.0[2], a: q.0[3] }
}

/// Relies on image::GenericImage::put_pixel, which panics outside the
/// rectangle and stores the pixel verbatim in an 8-bit RGBA buffer.
#[verifier::external_body]
pub(crate) fn put_pixel_raw(d: &mut image::DynamicImage, x: u32, y: u32, p: Pixel)
    requires
        dyn_is_rgba8(*old(d)),
        raster_model(*old(d)).in_bounds(x as int, y as int),
    ensures
        dyn_is_rgba8(*final(d)),
        raster_model(*final(d)) == raster_model(*old(d)).put(x as int, y as int, p),
{
    d.put_pixel(x, y, image::Rgba([p.r, p.g, p.b, p.a]));
}

/// Relies on image::DynamicImage::rotate90: the output is the input rotated
/// 90 degrees clockwise, in the same buffer layout.
#[verifier::external_body]
pub(crate) fn rotate90_raw(d: &image::DynamicImage) -> (r: image::DynamicImage)
    requires
        dyn_is_rgba8(*d),
    ensures
        dyn_is_rgba8(r),
        raster_model(r) == raster_model(*d).rotate90(),
{
    d.rotate90()
}

/// Relies on image::DynamicImage::rotate180.
#[verifier::external_body]
pub(crate) fn rotate180_raw(d: &image::DynamicImage) -> (r: image::DynamicImage)
    requires
        dyn_is_rgba8(*d),
    ensures
        dyn_is_rgba8(r),
        raster_model(r) == raster_model(*d).rotate180(),
{
    d.rotate180()
}

/// Relies on image::DynamicImage::rotate270.
#[verifier::external_body]
pub(crate) fn rotate270_raw(d: &image::DynamicImage) -> (r: image::DynamicImage)
    requires
        dyn_is_rgba8(*d),
    ensures
        dyn_is_rgba8(r),
        raster_model(r) == raster_model(*d).rotate270(),
{
    d.rotate270()
}

/// Relies on image::DynamicImage::fliph: mirrors across the vertical axis.
#[verifier::external_body]
pub(crate) fn fliph_raw(d: &image::DynamicImage) -> (r: image::DynamicImage)
    requires
        dyn_is_rgba8(*d),
    ensures
        dyn_is_rgba8(r),
        raster_model(r) == raster_model(*d).fliph(),
{
    d.fliph()
}

/// Relies on image::DynamicImage::flipv: mirrors across the horizontal axis.
#[verifier::external_body]
pub(crate) fn flipv_raw(d: &image::DynamicImage) -> (r: image::DynamicImage)
    requires
        dyn_is_rgba8(*d),
    ensures
        dyn_is_rgba8(r),
        raster_model(r) == raster_model(*d).flipv(),
{
    d.flipv()
}

/// Relies on image::DynamicImage::grayscale: on an 8-bit RGBA buffer, each
/// pixel becomes its sRGB luminance with the alpha channel preserved (the
/// result is stored as luminance-with-alpha, not RGBA).
#[verifier::external_body]
pub(crate) fn grayscale_raw(d: &image::DynamicImage) -> (r: image::DynamicImage)
    requires
        dyn_is_rgba8(*d),
    ensures
        dyn_wf(r),
        raster_model(r) == raster_model(*d).gray(),
{
    d.grayscale()
}

/// Relies on image::DynamicImage::invert: inverts every color channel in
/// place, preserving alpha and dimensions.
#[verifier::external_body]
pub(crate) fn invert_raw(d: &mut image::DynamicImage)
    requires
        dyn_is_rgba8(*old(d)),
    ensures
        dyn_is_rgba8(*final(d)),
        raster_model(*final(d)) == raster_model(*old(d)).invert(),
{
    d.invert();
}

/// Relies on image::DynamicImage::brighten: adds `value` to every color
/// channel, clamped to the channel range, preserving alpha. A value above
/// `i32::MAX - 255` would overflow the addition inside the library.
#[verifier::external_body]
pub(crate) fn brighten_raw(d: &image::DynamicImage, value: i32) -> (r: image::DynamicImage)
    requires
        dyn_is_rgba8(*d),
        value <= i32::MAX - 255,
    ensures
        dyn_is_rgba8(r),
        raster_model(r) == raster_model(*d).brighten(value as int),
{
    d.brighten(value)
}

/// Relies on image::DynamicImage::huerotate: maps every pixel through a
/// fixed function of the pixel and the angle; at 0 degrees the rotation
/// matrix is exactly the identity, so the image is unchanged.
#[verifier::external_body]
pub(crate) fn huerotate_raw(d: &image::DynamicImage, degrees: i32) -> (r: image::DynamicImage)
    requires
        dyn_is_rgba8(*d),
    ensures
        dyn_is_rgba8(r),
        raster_model(r) == raster_model(*d).map_pixels(|p: Pixel| hue_rotated(p, degrees)),
        degrees == 0 ==> raster_model(r) == raster_model(*d),
{
    d.huerotate(degrees)
}

/// Relies on image::DynamicImage::resize_exact: resamples to exactly the
/// requested dimensions with the given filter, keeping the buffer layout.
/// A zero target or a buffer above the address space would panic inside
/// the library.
#[verifier::external_body]
pub(crate) fn resize_exact_raw(
    d: &image::DynamicImage,
    nwidth: u32,
    nheight: u32,
    filter: Filter,
) -> (r: image::DynamicImage)
    requires
        dyn_is_rgba8(*d),
        raster_model(*d).wf(),
        1 <= nwidth,
        1 <= nheight,
        4 * (nwidth as int) * (nheight as int) <= usize::MAX as int,
    ensures
        dyn_is_rgba8(r),
        dyn_wf(r),
        dyn_dims(r) == (nwidth, nheight),
{
    let f = match filter {
        Filter::Nearest => image::imageops::FilterType::Nearest,
        Filter::Triangle => image::imageops::FilterType::Triangle,
        Filter::CatmullRom => image::imageops::FilterType::CatmullRom,
        Filter::Gaussian => image::imageops::FilterType::Gaussian,
        Filter::Lanczos3 => image::imageops::FilterType::Lanczos3,
    };
    d.resize_exact(nwidth, nheight, f)
}

/// Relies on image::DynamicImage::thumbnail_exact: the fast integer
/// downscale to exactly the requested dimensions, keeping the layout.
#[verifier::external_body]
pub(crate) fn thumbnail_exact_raw(
    d: &image::DynamicImage,
    nwidth: u32,
    nheight: u32,
) -> (r: image::DynamicImage)
    requires
        dyn_is_rgba8(*d),
        raster_model(*d).wf(),
        1 <= nwidth,
        1 <= nheight,
        4 * (nwidth as int) * (nheight as int) <= usize::MAX as int,
    ensures
        dyn_is_rgba8(r),
        dyn_wf(r),
        dyn_dims(r) == (nwidth, nheight),
{
    d.thumbnail_exact(nwidth, nheight)
}

/// Relies on image::DynamicImage::crop_imm: copies out the window of the
/// given size at the given corner; within bounds it clamps nothing.
#[verifier::external_body]
pub(crate) fn crop_raw(
    d: &image::DynamicImage,
    x: u32,
    y: u32,
    width: u32,
    height: u32,
) -> (r: image::DynamicImage)
    requires
        dyn_is_rgba8(*d),
        1 <= width,
        1 <= height,
        x as int + width as int <= raster_model(*d).width,
        y as int + height as int <= raster_model(*d).height,
    ensures
        dyn_is_rgba8(r),
        dyn_wf(r),
        raster_model(r) == raster_model(*d).window(x as int, y as int, width as int, height as int),
{
    d.crop_imm(x, y, width, height)
}

/// Relies on image::DynamicImage::write_to: encodes the raster into the
/// chosen container in memory. Every encoder here is deterministic in the
/// image value and the format, and succeeds or fails on them alone: JPEG
/// and GIF accept exactly the dimensions that fit in sixteen bits, ICO
/// exactly those up to 256, and a successful encoding starts with the
/// container's header, for JPEG the two start-of-image marker bytes. The
/// BMP size arithmetic would overflow on a row wider than the file-size
/// field can count.
#[verifier::external_body]
pub(crate) fn encode_raw(d: &image::DynamicImage, f: Format) -> (r: Result<
    Vec<u8>,
    image::ImageError,
>)
    requires
        dyn_is_rgba8(*d),
        raster_model(*d).wf(),
        f is Bmp ==> 4 * raster_model(*d).width <= u32::MAX as int,
    ensures
        (r is Ok) == encode_ok(raster_model(*d), f),
        r matches Ok(b) ==> b@ == encoded_of(raster_model(*d), f) && b@.len() > 0,
        f matches Format::Ico ==> (r is Ok) == (raster_model(*d).width <= 256 && raster_model(
            *d,
        ).height <= 256),
        f matches Format::Gif ==> (r is Ok) == (raster_model(*d).width <= 65535 && raster_model(
            *d,
        ).height <= 65535),
        f matches Format::Jpeg(_) ==> (r is Ok) == (raster_model(*d).width <= 65535
            && raster_model(*d).height <= 65535),
        r matches Ok(b) ==> (f matches Format::Jpeg(_) ==> b@.len() >= 2 && b@[0] == 0xff && b@[1]
            == 0xd8),
{
    let out = match f {
        Format::Png => image::ImageOutputFormat::Png,
        Format::Gif => image::ImageOutputFormat::Gif,
        Format::Ico => image::ImageOutputFormat::Ico,
        Format::Bmp => image::ImageOutputFormat::Bmp,
        Format::Jpeg(q) => image::ImageOutputFormat::Jpeg(q),
    };
    let mut cur = std::io::Cursor::new(Vec::new());
    match d.write_to(&mut cur, out) {
        Ok(()) => Ok(cur.into_inner()),
        Err(e) => Err(e),
    }
}

/// Relies on image::DynamicImage::as_bytes: the raw channel-interleaved
/// buffer, which for an 8-bit RGBA raster is four bytes per pixel in
/// row-major order.
#[verifier::external_body]
pub(crate) fn raw_bytes_raw(d: &image::DynamicImage) -> (r: Vec<u8>)
    requires
        dyn_is_rgba8(*d),
        dyn_wf(*d),
    ensures
        r@ == raster_model(*d).raw_bytes(),
{
    d.as_bytes().to_vec()
}

} // verus!
