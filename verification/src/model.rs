//! The mathematical model of a raster image: a width, a height, and a map
//! from in-range coordinates to pixels. Every contract of the facade is
//! stated over this model.

use vstd::prelude::*;

use crate::pixel::Pixel;

verus! {

/// The abstract value of an image: a `width x height` rectangle of pixels.
#[verifier::ext_equal]
pub ghost struct ImgModel {
    pub width: int,
    pub height: int,
    pub pix: Map<(int, int), Pixel>,
}

/// The coordinate rectangle `[0, w) x [0, h)`.
pub open spec fn rect(w: int, h: int) -> Set<(int, int)> {
    Set::new(|xy: (int, int)| 0 <= xy.0 < w && 0 <= xy.1 < h)
}

impl ImgModel {
    /// Well-formed: every coordinate of the rectangle has exactly one pixel,
    /// and the rectangle is not empty.
    pub open spec fn wf(self) -> bool {
        &&& 1 <= self.width
        &&& 1 <= self.height
        &&& self.pix.dom() == rect(self.width, self.height)
    }

    pub open spec fn in_bounds(self, x: int, y: int) -> bool {
        0 <= x < self.width && 0 <= y < self.height
    }

    /// Rotation by 90 degrees clockwise: dimensions swap, and the pixel at
    /// `(x, y)` of the result is the pixel at `(y, h - 1 - x)` of the source.
    pub open spec fn rotate90(self) -> ImgModel {
        ImgModel {
            width: self.height,
            height: self.width,
            pix: Map::new(
                |xy: (int, int)| 0 <= xy.0 < self.height && 0 <= xy.1 < self.width,
                |xy: (int, int)| self.pix[(xy.1, self.height - 1 - xy.0)],
            ),
        }
    }

    /// Rotation by 180 degrees: dimensions stay, both axes mirror.
    pub open spec fn rotate180(self) -> ImgModel {
        ImgModel {
            width: self.width,
            height: self.height,
            pix: Map::new(
                |xy: (int, int)| 0 <= xy.0 < self.width && 0 <= xy.1 < self.height,
                |xy: (int, int)| self.pix[(self.width - 1 - xy.0, self.height - 1 - xy.1)],
            ),
        }
    }

    /// Rotation by 270 degrees clockwise: dimensions swap, and the pixel at
    /// `(x, y)` of the result is the pixel at `(w - 1 - y, x)` of the source.
    pub open spec fn rotate270(self) -> ImgModel {
        ImgModel {
            width: self.height,
            height: self.width,
            pix: Map::new(
                |xy: (int, int)| 0 <= xy.0 < self.height && 0 <= xy.1 < self.width,
                |xy: (int, int)| self.pix[(self.width - 1 - xy.1, xy.0)],
            ),
        }
    }

    /// Mirror across the vertical axis: `(x, y)` maps to `(w - 1 - x, y)`.
    pub open spec fn fliph(self) -> ImgModel {
        ImgModel {
            width: self.width,
            height: self.height,
            pix: Map::new(
                |xy: (int, int)| 0 <= xy.0 < self.width && 0 <= xy.1 < self.height,
                |xy: (int, int)| self.pix[(self.width - 1 - xy.0, xy.1)],
            ),
        }
    }

    /// Mirror across the horizontal axis: `(x, y)` maps to `(x, h - 1 - y)`.
    pub open spec fn flipv(self) -> ImgModel {
        ImgModel {
            width: self.width,
            height: self.height,
            pix: Map::new(
                |xy: (int, int)| 0 <= xy.0 < self.width && 0 <= xy.1 < self.height,
                |xy: (int, int)| self.pix[(xy.0, self.height - 1 - xy.1)],
            ),
        }
    }

    /// Per-pixel channel inversion.
    pub open spec fn invert(self) -> ImgModel {
        self.map_pixels(|p: Pixel| p.spec_invert())
    }

    /// Per-pixel additive brightening, clamped to the channel range.
    pub open spec fn brighten(self, value: int) -> ImgModel {
        self.map_pixels(|p: Pixel| p.spec_brighten(value))
    }

    /// Per-pixel desaturation under the sRGB luminance model.
    pub open spec fn gray(self) -> ImgModel {
        self.map_pixels(|p: Pixel| p.spec_gray())
    }

    /// The image with one pixel overwritten.
    pub open spec fn put(self, x: int, y: int, p: Pixel) -> ImgModel {
        ImgModel { width: self.width, height: self.height, pix: self.pix.insert((x, y), p) }
    }

    /// The window of size `w x h` whose top-left corner is `(x0, y0)`.
    pub open spec fn window(self, x0: int, y0: int, w: int, h: int) -> ImgModel {
        ImgModel {
            width: w,
            height: h,
            pix: Map::new(
                |xy: (int, int)| 0 <= xy.0 < w && 0 <= xy.1 < h,
                |xy: (int, int)| self.pix[(x0 + xy.0, y0 + xy.1)],
            ),
        }
    }

    /// The same rectangle with every pixel transformed pointwise.
    pub open spec fn map_pixels(self, f: spec_fn(Pixel) -> Pixel) -> ImgModel {
        ImgModel {
            width: self.width,
            height: self.height,
            pix: Map::new(
                |xy: (int, int)| 0 <= xy.0 < self.width && 0 <= xy.1 < self.height,
                |xy: (int, int)| f(self.pix[xy]),
            ),
        }
    }

    /// The raw channel-interleaved pixel buffer: four bytes per pixel in
    /// row-major order, `r, g, b, a` within each pixel.
    pub open spec fn raw_bytes(self) -> Seq<u8> {
        Seq::new(
            (4 * self.width * self.height) as nat,
            |i: int|
                {
                    let x = (i / 4) % self.width;
                    let y = (i / 4) / self.width;
                    let p = self.pix[(x, y)];
                    let c = i % 4;
                    if c == 0 {
                        p.r
                    } else if c == 1 {
                        p.g
                    } else if c == 2 {
                        p.b
                    } else {
                        p.a
                    }
                },
        )
    }
}

/// `v / d` rounded to the nearest integer, halves rounding up; `d >= 1`.
pub open spec fn round_div(v: int, d: int) -> int {
    (2 * v + d) / (2 * d)
}

/// `v` clamped into `[lo, hi]`.
pub open spec fn clamp_dim(v: int, lo: int, hi: int) -> int {
    if v < lo {
        lo
    } else if v > hi {
        hi
    } else {
        v
    }
}

/// The dimensions of the largest image that fits inside `nw x nh` while
/// keeping the aspect ratio of a `w x h` source: the more constrained axis
/// takes its requested bound exactly, the other scales by the same ratio,
/// rounded, and held inside `1..=bound`.
pub open spec fn fit_dims(w: int, h: int, nw: int, nh: int) -> (int, int) {
    if nw * h <= nh * w {
        (nw, clamp_dim(round_div(h * nw, w), 1, nh))
    } else {
        (clamp_dim(round_div(w * nh, h), 1, nw), nh)
    }
}

/// The dimensions of the smallest image that covers `nw x nh` while keeping
/// the aspect ratio of a `w x h` source: the less constrained axis takes its
/// requested bound exactly, the other scales by the same ratio, rounded,
/// and held at or above its bound.
pub open spec fn fill_dims(w: int, h: int, nw: int, nh: int) -> (int, int) {
    if nw * h >= nh * w {
        (nw, if round_div(h * nw, w) < nh { nh } else { round_div(h * nw, w) })
    } else {
        (if round_div(w * nh, h) < nw { nw } else { round_div(w * nh, h) }, nh)
    }
}

pub proof fn lemma_rotate90_wf(m: ImgModel)
    requires
        m.wf(),
    ensures
        m.rotate90().wf(),
{
    assert(m.rotate90().pix.dom() =~= rect(m.height, m.width));
}

pub proof fn lemma_rotate180_wf(m: ImgModel)
    requires
        m.wf(),
    ensures
        m.rotate180().wf(),
{
    assert(m.rotate180().pix.dom() =~= rect(m.width, m.height));
}

pub proof fn lemma_rotate270_wf(m: ImgModel)
    requires
        m.wf(),
    ensures
        m.rotate270().wf(),
{
    assert(m.rotate270().pix.dom() =~= rect(m.height, m.width));
}

pub proof fn lemma_fliph_wf(m: ImgModel)
    requires
        m.wf(),
    ensures
        m.fliph().wf(),
{
    assert(m.fliph().pix.dom() =~= rect(m.width, m.height));
}

pub proof fn lemma_flipv_wf(m: ImgModel)
    requires
        m.wf(),
    ensures
        m.flipv().wf(),
{
    assert(m.flipv().pix.dom() =~= rect(m.width, m.height));
}

pub proof fn lemma_map_pixels_wf(m: ImgModel, f: spec_fn(Pixel) -> Pixel)
    requires
        m.wf(),
    ensures
        m.map_pixels(f).wf(),
{
    assert(m.map_pixels(f).pix.dom() =~= rect(m.width, m.height));
}

pub proof fn lemma_put_wf(m: ImgModel, x: int, y: int, p: Pixel)
    requires
        m.wf(),
        m.in_bounds(x, y),
    ensures
        m.put(x, y, p).wf(),
{
    assert(m.put(x, y, p).pix.dom() =~= rect(m.width, m.height));
}

pub proof fn lemma_window_wf(m: ImgModel, x0: int, y0: int, w: int, h: int)
    requires
        m.wf(),
        1 <= w,
        1 <= h,
        0 <= x0,
        0 <= y0,
        x0 + w <= m.width,
        y0 + h <= m.height,
    ensures
        m.window(x0, y0, w, h).wf(),
{
    assert(m.window(x0, y0, w, h).pix.dom() =~= rect(w, h));
}

/// Law: rotating four times by 90 degrees clockwise returns an image with
/// pixel content identical to the original.
pub proof fn lemma_rotate90_four_times(m: ImgModel)
    requires
        m.wf(),
    ensures
        m.rotate90().rotate90().rotate90().rotate90() == m,
{
    assert(m.rotate90().rotate90().rotate90().rotate90() =~= m);
}

/// Law: mirroring across the vertical axis twice returns an image with
/// pixel content identical to the original.
pub proof fn lemma_fliph_twice(m: ImgModel)
    requires
        m.wf(),
    ensures
        m.fliph().fliph() == m,
{
    assert(m.fliph().fliph() =~= m);
}

/// Law: an aspect-preserving fit never exceeds the requested bounds on
/// either axis, and touches at least one of them exactly.
pub proof fn lemma_fit_dims_bounds(w: int, h: int, nw: int, nh: int)
    requires
        1 <= w,
        1 <= h,
        1 <= nw,
        1 <= nh,
    ensures
        1 <= fit_dims(w, h, nw, nh).0 <= nw,
        1 <= fit_dims(w, h, nw, nh).1 <= nh,
        fit_dims(w, h, nw, nh).0 == nw || fit_dims(w, h, nw, nh).1 == nh,
{
}

/// Law: an aspect-preserving fill covers the requested bounds on both axes.
pub proof fn lemma_fill_dims_cover(w: int, h: int, nw: int, nh: int)
    requires
        1 <= w,
        1 <= h,
        1 <= nw,
        1 <= nh,
    ensures
        nw <= fill_dims(w, h, nw, nh).0,
        nh <= fill_dims(w, h, nw, nh).1,
        fill_dims(w, h, nw, nh).0 == nw || fill_dims(w, h, nw, nh).1 == nh,
{
}

} // verus!
