//! The image facade: owns one decoded raster, exposes the transformation,
//! pixel-access and encoding operations, and validates every host-supplied
//! parameter. Every image the facade hands out is well formed: a non-empty
//! 8-bit RGBA rectangle.

use vstd::prelude::*;

use crate::error::{ErrorKind, ImgError};
use crate::format::{spec_resolve_filter, spec_resolve_format, Filter, Format, FormatToken};
use crate::model::{
    fill_dims, fit_dims, lemma_fill_dims_cover, lemma_fit_dims_bounds, lemma_fliph_wf,
    lemma_flipv_wf, lemma_map_pixels_wf, lemma_put_wf, lemma_rotate180_wf, lemma_rotate270_wf,
    lemma_rotate90_wf, lemma_window_wf, ImgModel,
};
use crate::pixel::Pixel;
use crate::raster::{
    brighten_raw, crop_raw, decode_ok, decode_raw, decoded_of, dims_raw, dyn_is_rgba8, encode_ok,
    encode_raw, encoded_of, fliph_raw, flipv_raw, get_pixel_raw, grayscale_raw, hue_rotated,
    huerotate_raw, invert_raw, put_pixel_raw, raster_model, raw_bytes_raw, resize_exact_raw,
    rotate180_raw, rotate270_raw, rotate90_raw, spec_huerotate, thumbnail_exact_raw, to_rgba8_raw,
};

verus! {

/// An owned raster image. Transforms return a new instance; the two
/// sanctioned in-place mutations are `invert` and `put_pixel`.
pub struct Image {
    inner: image::DynamicImage,
}

impl View for Image {
    type V = ImgModel;

    closed spec fn view(&self) -> ImgModel {
        raster_model(self.inner)
    }
}

impl Image {
    /// Well-formed: a non-empty pixel rectangle, stored as 8-bit RGBA.
    pub closed spec fn wf(self) -> bool {
        dyn_is_rgba8(self.inner) && self@.wf()
    }

    /// A well-formed image has a well-formed model, so the model-level laws
    /// apply to every image the facade hands out.
    pub proof fn lemma_wf_view(&self)
        requires
            self.wf(),
        ensures
            self@.wf(),
    {
    }

    /// Decode an in-memory byte sequence; the container format is
    /// auto-detected from its contents. This and a transform are the only
    /// ways an image comes to exist: decoding succeeds exactly on a
    /// decodable, non-empty image and yields the image the bytes describe.
    pub fn from_bytes(data: &[u8]) -> (r: Result<Image, ImgError>)
        ensures
            r is Ok <==> decode_ok(data@) && decoded_of(data@).width >= 1 && decoded_of(
                data@,
            ).height >= 1,
            r matches Ok(img) ==> img.wf() && img@ == decoded_of(data@),
            r matches Err(e) ==> e.kind == ErrorKind::Decode,
    {
        match decode_raw(data) {
            Ok(d) => {
                let inner = to_rgba8_raw(&d);
                let (w, h) = dims_raw(&inner);
                if w >= 1 && h >= 1 {
                    Ok(Image { inner })
                } else {
                    Err(ImgError::decode("decoded image has no pixels"))
                }
            },
            Err(_) => Err(ImgError::decode("the bytes do not decode as any supported image format")),
        }
    }

    /// Wrap a raster obtained from the host's own calls into the image
    /// library; an empty raster is refused.
    pub fn from_raster(d: image::DynamicImage) -> (r: Option<Image>)
        ensures
            r matches Some(img) ==> img.wf() && img@ == raster_model(d),
            r is None ==> raster_model(d).width == 0 || raster_model(d).height == 0,
    {
        let inner = to_rgba8_raw(&d);
        let (w, h) = dims_raw(&inner);
        if w >= 1 && h >= 1 {
            Some(Image { inner })
        } else {
            None
        }
    }

    /// The underlying raster, for host-side operations the facade does not
    /// model (saving to a path, blurring, convolution).
    pub fn raster(&self) -> (r: &image::DynamicImage)
        ensures
            raster_model(*r) == self@,
    {
        &self.inner
    }

    pub fn dimensions(&self) -> (r: (u32, u32))
        ensures
            r.0 as int == self@.width,
            r.1 as int == self@.height,
    {
        dims_raw(&self.inner)
    }

    pub fn width(&self) -> (r: u32)
        ensures
            r as int == self@.width,
    {
        let (w, _h) = dims_raw(&self.inner);
        w
    }

    pub fn height(&self) -> (r: u32)
        ensures
            r as int == self@.height,
    {
        let (_w, h) = dims_raw(&self.inner);
        h
    }

    /// The bounding rectangle; the facade tracks no sub-region state, so
    /// the corner is always the origin.
    pub fn bounds(&self) -> (r: (u32, u32, u32, u32))
        ensures
            r.0 == 0u32 && r.1 == 0u32,
            r.2 as int == self@.width,
            r.3 as int == self@.height,
    {
        let (w, h) = dims_raw(&self.inner);
        (0, 0, w, h)
    }

    /// Whether a coordinate lies inside the image rectangle; total.
    pub fn in_bounds(&self, x: u32, y: u32) -> (r: bool)
        ensures
            r == self@.in_bounds(x as int, y as int),
    {
        let (w, h) = dims_raw(&self.inner);
        x < w && y < h
    }

    /// A copy of the pixel at `(x, y)`, or a bounds error outside the
    /// rectangle.
    pub fn get_pixel(&self, x: u32, y: u32) -> (r: Result<Pixel, ImgError>)
        requires
            self.wf(),
        ensures
            self@.in_bounds(x as int, y as int) ==> (r matches Ok(p) && p == self@.pix[(
                x as int,
                y as int,
            )]),
            !self@.in_bounds(x as int, y as int) ==> (r matches Err(e) && e.kind
                == ErrorKind::Bounds),
    {
        let (w, h) = dims_raw(&self.inner);
        if x < w && y < h {
            Ok(get_pixel_raw(&self.inner, x, y))
        } else {
            Err(ImgError::bounds("coordinate out of bounds of image"))
        }
    }

    /// Overwrite the pixel at `(x, y)` in place, or fail with a bounds
    /// error, leaving the image unchanged.
    pub fn put_pixel(&mut self, x: u32, y: u32, p: Pixel) -> (r: Result<(), ImgError>)
        requires
            old(self).wf(),
        ensures
            final(self).wf(),
            old(self)@.in_bounds(x as int, y as int) ==> r is Ok && final(self)@ == old(
                self,
            )@.put(x as int, y as int, p),
            !old(self)@.in_bounds(x as int, y as int) ==> (r matches Err(e) && e.kind
                == ErrorKind::Bounds) && final(self)@ == old(self)@,
    {
        let (w, h) = dims_raw(&self.inner);
        if x < w && y < h {
            put_pixel_raw(&mut self.inner, x, y, p);
            proof {
                lemma_put_wf(old(self)@, x as int, y as int, p);
            }
            Ok(())
        } else {
            Err(ImgError::bounds("coordinate out of bounds of image"))
        }
    }

    /// Rotate 90 degrees clockwise; dimensions swap.
    pub fn rotate90(&self) -> (r: Image)
        requires
            self.wf(),
        ensures
            r.wf(),
            r@ == self@.rotate90(),
    {
        let inner = rotate90_raw(&self.inner);
        proof {
            lemma_rotate90_wf(self@);
        }
        Image { inner }
    }

    /// Rotate 180 degrees; dimensions stay.
    pub fn rotate180(&self) -> (r: Image)
        requires
            self.wf(),
        ensures
            r.wf(),
            r@ == self@.rotate180(),
    {
        let inner = rotate180_raw(&self.inner);
        proof {
            lemma_rotate180_wf(self@);
        }
        Image { inner }
    }

    /// Rotate 270 degrees clockwise; dimensions swap.
    pub fn rotate270(&self) -> (r: Image)
        requires
            self.wf(),
        ensures
            r.wf(),
            r@ == self@.rotate270(),
    {
        let inner = rotate270_raw(&self.inner);
        proof {
            lemma_rotate270_wf(self@);
        }
        Image { inner }
    }

    /// Mirror across the vertical axis.
    pub fn fliph(&self) -> (r: Image)
        requires
            self.wf(),
        ensures
            r.wf(),
            r@ == self@.fliph(),
    {
        let inner = fliph_raw(&self.inner);
        proof {
            lemma_fliph_wf(self@);
        }
        Image { inner }
    }

    /// Mirror across the horizontal axis.
    pub fn flipv(&self) -> (r: Image)
        requires
            self.wf(),
        ensures
            r.wf(),
            r@ == self@.flipv(),
    {
        let inner = flipv_raw(&self.inner);
        proof {
            lemma_flipv_wf(self@);
        }
        Image { inner }
    }

    /// Desaturate every pixel under the library's luminance model; alpha
    /// is preserved.
    pub fn grayscale(&self) -> (r: Image)
        requires
            self.wf(),
        ensures
            r.wf(),
            r@ == self@.gray(),
    {
        let g = grayscale_raw(&self.inner);
        let inner = to_rgba8_raw(&g);
        proof {
            lemma_map_pixels_wf(self@, |p: Pixel| p.spec_gray());
        }
        Image { inner }
    }

    /// The one whole-image in-place mutation: invert every color channel,
    /// preserving alpha.
    pub fn invert(&mut self)
        requires
            old(self).wf(),
        ensures
            final(self).wf(),
            final(self)@ == old(self)@.invert(),
    {
        invert_raw(&mut self.inner);
        proof {
            lemma_map_pixels_wf(old(self)@, |p: Pixel| p.spec_invert());
        }
    }

    /// Brighten every pixel additively, clamped per channel; alpha is
    /// preserved. Negative values darken.
    pub fn brighten(&self, value: i32) -> (r: Image)
        requires
            self.wf(),
            value <= i32::MAX - 255,
        ensures
            r.wf(),
            r@ == self@.brighten(value as int),
    {
        let inner = brighten_raw(&self.inner, value);
        proof {
            lemma_map_pixels_wf(self@, |p: Pixel| p.spec_brighten(value as int));
        }
        Image { inner }
    }

    /// Rotate the hue of every pixel by the given degrees; zero degrees and
    /// a full turn are the identity. A full turn is normalized to zero
    /// before the call, since the library's own 360-degree rotation can be
    /// off by one on some channels.
    pub fn huerotate(&self, degrees: i32) -> (r: Image)
        requires
            self.wf(),
        ensures
            r.wf(),
            r@ == spec_huerotate(self@, if degrees == 360 { 0i32 } else { degrees }),
            degrees == 0 || degrees == 360 ==> r@ == self@,
    {
        let d: i32 = if degrees == 360 {
            0
        } else {
            degrees
        };
        let inner = huerotate_raw(&self.inner, d);
        proof {
            lemma_map_pixels_wf(self@, |p: Pixel| hue_rotated(p, d));
        }
        Image { inner }
    }

    /// Resize preserving aspect ratio: the result is the largest image that
    /// fits within the requested bounds. An unrecognized filter name fails
    /// validation.
    pub fn resize(&self, nwidth: u32, nheight: u32, filter: &str) -> (r: Result<Image, ImgError>)
        requires
            self.wf(),
            1 <= nwidth,
            1 <= nheight,
            4 * (nwidth as int) * (nheight as int) <= usize::MAX as int,
        ensures
            r is Ok <==> spec_resolve_filter(filter@) is Some,
            r matches Err(e) ==> e.kind == ErrorKind::Validation,
            r matches Ok(img) ==> img.wf() && (img@.width, img@.height) == fit_dims(
                self@.width,
                self@.height,
                nwidth as int,
                nheight as int,
            ) && img@.width <= nwidth && img@.height <= nheight,
    {
        match Filter::resolve(filter) {
            Err(e) => Err(e),
            Ok(f) => {
                proof {
                    lemma_fit_dims_bounds(self@.width, self@.height, nwidth as int, nheight as int);
                }
                let (w, h) = dims_raw(&self.inner);
                let (fw, fh) = fit_dims_exec(w, h, nwidth, nheight);
                proof {
                    assert(4 * (fw as int) * (fh as int) <= 4 * (nwidth as int) * (nheight as int))
                        by (nonlinear_arith)
                        requires
                            0 <= fw as int <= nwidth as int,
                            0 <= fh as int <= nheight as int,
                    ;
                }
                Ok(Image { inner: resize_exact_raw(&self.inner, fw, fh, f) })
            },
        }
    }

    /// Resize ignoring aspect ratio: the result has exactly the requested
    /// dimensions. An unrecognized filter name fails validation.
    pub fn resize_exact(&self, nwidth: u32, nheight: u32, filter: &str) -> (r: Result<
        Image,
        ImgError,
    >)
        requires
            self.wf(),
            1 <= nwidth,
            1 <= nheight,
            4 * (nwidth as int) * (nheight as int) <= usize::MAX as int,
        ensures
            r is Ok <==> spec_resolve_filter(filter@) is Some,
            r matches Err(e) ==> e.kind == ErrorKind::Validation,
            r matches Ok(img) ==> img.wf() && img@.width == nwidth && img@.height == nheight,
    {
        match Filter::resolve(filter) {
            Err(e) => Err(e),
            Ok(f) => Ok(Image { inner: resize_exact_raw(&self.inner, nwidth, nheight, f) }),
        }
    }

    /// Resize to cover the requested bounds, then crop the overflow axis
    /// centrally: the result has exactly the requested dimensions. An
    /// unrecognized filter name fails validation.
    pub fn resize_to_fill(&self, nwidth: u32, nheight: u32, filter: &str) -> (r: Result<
        Image,
        ImgError,
    >)
        requires
            self.wf(),
            1 <= nwidth,
            1 <= nheight,
            fill_dims(self@.width, self@.height, nwidth as int, nheight as int).0 <= u32::MAX as int,
            fill_dims(self@.width, self@.height, nwidth as int, nheight as int).1 <= u32::MAX as int,
            4 * fill_dims(self@.width, self@.height, nwidth as int, nheight as int).0 * fill_dims(
                self@.width,
                self@.height,
                nwidth as int,
                nheight as int,
            ).1 <= usize::MAX as int,
        ensures
            r is Ok <==> spec_resolve_filter(filter@) is Some,
            r matches Err(e) ==> e.kind == ErrorKind::Validation,
            r matches Ok(img) ==> img.wf() && img@.width == nwidth && img@.height == nheight,
    {
        match Filter::resolve(filter) {
            Err(e) => Err(e),
            Ok(f) => {
                proof {
                    lemma_fill_dims_cover(self@.width, self@.height, nwidth as int, nheight as int);
                }
                let (w, h) = dims_raw(&self.inner);
                let (fw, fh) = fill_dims_exec(w, h, nwidth, nheight);
                let mid = resize_exact_raw(&self.inner, fw, fh, f);
                proof {
                    assert((fw as int) * (nheight as int) < 0x10000000000000000) by (nonlinear_arith)
                        requires
                            fw as int <= 0xffff_ffff,
                            nheight as int <= 0xffff_ffff,
                    ;
                    assert((nwidth as int) * (fh as int) < 0x10000000000000000) by (nonlinear_arith)
                        requires
                            nwidth as int <= 0xffff_ffff,
                            fh as int <= 0xffff_ffff,
                    ;
                }
                let ratio: u64 = (fw as u64) * (nheight as u64);
                let nratio: u64 = (nwidth as u64) * (fh as u64);
                let inner = if nratio > ratio {
                    crop_raw(&mid, 0, (fh - nheight) / 2, nwidth, nheight)
                } else {
                    crop_raw(&mid, (fw - nwidth) / 2, 0, nwidth, nheight)
                };
                proof {
                    lemma_window_wf(
                        raster_model(mid),
                        if nratio > ratio {
                            0
                        } else {
                            (fw - nwidth) as int / 2
                        },
                        if nratio > ratio {
                            (fh - nheight) as int / 2
                        } else {
                            0
                        },
                        nwidth as int,
                        nheight as int,
                    );
                }
                Ok(Image { inner })
            },
        }
    }

    /// The fast integer downscale that fits within the requested bounds,
    /// preserving aspect ratio.
    pub fn thumbnail(&self, nwidth: u32, nheight: u32) -> (r: Image)
        requires
            self.wf(),
            1 <= nwidth,
            1 <= nheight,
            4 * (nwidth as int) * (nheight as int) <= usize::MAX as int,
        ensures
            r.wf(),
            (r@.width, r@.height) == fit_dims(
                self@.width,
                self@.height,
                nwidth as int,
                nheight as int,
            ),
            r@.width <= nwidth && r@.height <= nheight,
    {
        proof {
            lemma_fit_dims_bounds(self@.width, self@.height, nwidth as int, nheight as int);
        }
        let (w, h) = dims_raw(&self.inner);
        let (fw, fh) = fit_dims_exec(w, h, nwidth, nheight);
        proof {
            assert(4 * (fw as int) * (fh as int) <= 4 * (nwidth as int) * (nheight as int))
                by (nonlinear_arith)
                requires
                    0 <= fw as int <= nwidth as int,
                    0 <= fh as int <= nheight as int,
            ;
        }
        Image { inner: thumbnail_exact_raw(&self.inner, fw, fh) }
    }

    /// The fast integer downscale to exactly the requested dimensions.
    pub fn thumbnail_exact(&self, nwidth: u32, nheight: u32) -> (r: Image)
        requires
            self.wf(),
            1 <= nwidth,
            1 <= nheight,
            4 * (nwidth as int) * (nheight as int) <= usize::MAX as int,
        ensures
            r.wf(),
            r@.width == nwidth && r@.height == nheight,
    {
        Image { inner: thumbnail_exact_raw(&self.inner, nwidth, nheight) }
    }

    /// Resolve the format token and encode the image into an in-memory byte
    /// sequence. An unrecognized token shape fails validation; a container
    /// that cannot represent the image fails with an encode error. Encoding
    /// is deterministic in the image value and the format: it succeeds
    /// exactly when the encoder accepts the pair, which for ICO means both
    /// dimensions up to 256 and for JPEG and GIF both up to 65535, and a
    /// successful encoding is non-empty, for JPEG starting with the
    /// start-of-image marker.
    pub fn as_bytes(&self, token: &FormatToken) -> (r: Result<Vec<u8>, ImgError>)
        requires
            self.wf(),
        ensures
            spec_resolve_format(*token) is None ==> (r matches Err(e) && e.kind
                == ErrorKind::Validation),
            spec_resolve_format(*token) matches Some(f) ==> {
                &&& r matches Err(e) ==> e.kind == ErrorKind::Encode
                &&& r matches Ok(b) ==> b@ == encoded_of(self@, f) && b@.len() > 0
                &&& !(f is Bmp && 4 * self@.width > u32::MAX as int) ==> ((r is Ok) <==> encode_ok(
                    self@,
                    f,
                ))
                &&& (f is Bmp && 4 * self@.width > u32::MAX as int) ==> r is Err
                &&& f is Ico ==> ((r is Ok) <==> self@.width <= 256 && self@.height <= 256)
                &&& f is Gif ==> ((r is Ok) <==> self@.width <= 65535 && self@.height <= 65535)
                &&& f matches Format::Jpeg(_) ==> ((r is Ok) <==> self@.width <= 65535
                    && self@.height <= 65535)
                &&& r matches Ok(b) ==> (f matches Format::Jpeg(_) ==> b@.len() >= 2 && b@[0]
                    == 0xff && b@[1] == 0xd8)
            },
    {
        match Format::resolve(token) {
            Err(e) => Err(e),
            Ok(f) => {
                if matches!(f, Format::Bmp) {
                    let (w, _h) = dims_raw(&self.inner);
                    if w > u32::MAX / 4 {
                        return Err(ImgError::encode("the image is too wide for this container"));
                    }
                }
                match encode_raw(&self.inner, f) {
                    Ok(b) => Ok(b),
                    Err(_) => Err(ImgError::encode("the encoder rejected the image")),
                }
            },
        }
    }

    /// The raw, un-encoded pixel buffer: four bytes per pixel, row-major,
    /// channel-interleaved.
    pub fn raw_pixels(&self) -> (r: Vec<u8>)
        requires
            self.wf(),
        ensures
            r@ == self@.raw_bytes(),
    {
        raw_bytes_raw(&self.inner)
    }
}

/// The fit dimensions, computed exactly in wide integer arithmetic.
fn fit_dims_exec(w: u32, h: u32, nw: u32, nh: u32) -> (r: (u32, u32))
    requires
        1 <= w,
        1 <= h,
        1 <= nw,
        1 <= nh,
    ensures
        r.0 as int == fit_dims(w as int, h as int, nw as int, nh as int).0,
        r.1 as int == fit_dims(w as int, h as int, nw as int, nh as int).1,
{
    let wl = w as u128;
    let hl = h as u128;
    let nwl = nw as u128;
    let nhl = nh as u128;
    proof {
        assert(hl * nwl < 0x10000000000000000 && wl * nhl < 0x10000000000000000)
            by (nonlinear_arith)
            requires
                hl <= 0xffff_ffff,
                nwl <= 0xffff_ffff,
                wl <= 0xffff_ffff,
                nhl <= 0xffff_ffff,
        ;
    }
    if nwl * hl <= nhl * wl {
        let d = (2 * (hl * nwl) + wl) / (2 * wl);
        let dc: u128 = if d < 1 {
            1
        } else if d > nhl {
            nhl
        } else {
            d
        };
        (nw, dc as u32)
    } else {
        let d = (2 * (wl * nhl) + hl) / (2 * hl);
        let dc: u128 = if d < 1 {
            1
        } else if d > nwl {
            nwl
        } else {
            d
        };
        (dc as u32, nh)
    }
}

/// The fill dimensions, computed exactly in wide integer arithmetic.
fn fill_dims_exec(w: u32, h: u32, nw: u32, nh: u32) -> (r: (u32, u32))
    requires
        1 <= w,
        1 <= h,
        1 <= nw,
        1 <= nh,
        fill_dims(w as int, h as int, nw as int, nh as int).0 <= u32::MAX as int,
        fill_dims(w as int, h as int, nw as int, nh as int).1 <= u32::MAX as int,
    ensures
        r.0 as int == fill_dims(w as int, h as int, nw as int, nh as int).0,
        r.1 as int == fill_dims(w as int, h as int, nw as int, nh as int).1,
{
    let wl = w as u128;
    let hl = h as u128;
    let nwl = nw as u128;
    let nhl = nh as u128;
    proof {
        assert(hl * nwl < 0x10000000000000000 && wl * nhl < 0x10000000000000000)
            by (nonlinear_arith)
            requires
                hl <= 0xffff_ffff,
                nwl <= 0xffff_ffff,
                wl <= 0xffff_ffff,
                nhl <= 0xffff_ffff,
        ;
    }
    if nwl * hl >= nhl * wl {
        let d = (2 * (hl * nwl) + wl) / (2 * wl);
        let dc: u128 = if d < nhl {
            nhl
        } else {
            d
        };
        (nw, dc as u32)
    } else {
        let d = (2 * (wl * nhl) + hl) / (2 * hl);
        let dc: u128 = if d < nwl {
            nwl
        } else {
            d
        };
        (dc as u32, nh)
    }
}

} // verus!
