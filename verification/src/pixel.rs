//! The pixel value exchanged at the per-pixel boundary: four independent
//! 8-bit channels, structural equality, no identity.

use vstd::prelude::*;

verus! {

/// A 4-channel RGBA color value.
#[derive(Clone, Copy, Debug, PartialEq, Eq, Structural)]
pub struct Pixel {
    pub r: u8,
    pub g: u8,
    pub b: u8,
    pub a: u8,
}

impl Pixel {
    pub fn new(r: u8, g: u8, b: u8, a: u8) -> (p: Pixel)
        ensures
            p == (Pixel { r, g, b, a }),
    {
        Pixel { r, g, b, a }
    }

    /// Channel-wise inversion; the alpha channel is preserved.
    pub open spec fn spec_invert(self) -> Pixel {
        Pixel { r: (255 - self.r) as u8, g: (255 - self.g) as u8, b: (255 - self.b) as u8, a: self.a }
    }

    /// Additive brightening, each color channel clamped to `0..=255`;
    /// the alpha channel is preserved.
    pub open spec fn spec_brighten(self, value: int) -> Pixel {
        Pixel {
            r: clamp_channel(self.r as int + value),
            g: clamp_channel(self.g as int + value),
            b: clamp_channel(self.b as int + value),
            a: self.a,
        }
    }

    /// Desaturation under the sRGB luminance model: every color channel
    /// becomes the weighted luminance of the original color channels;
    /// the alpha channel is preserved.
    pub open spec fn spec_gray(self) -> Pixel {
        let l = luma(self.r as int, self.g as int, self.b as int);
        Pixel { r: l, g: l, b: l, a: self.a }
    }
}

/// Clamp an integer into the 8-bit channel range.
pub open spec fn clamp_channel(v: int) -> u8 {
    if v < 0 {
        0u8
    } else if v > 255 {
        255u8
    } else {
        v as u8
    }
}

/// The sRGB luminance of a color, with the integer coefficients
/// 2126/10000, 7152/10000 and 722/10000. On a gray color `(l, l, l)`
/// the weights sum to one, so the luminance is `l` itself.
pub open spec fn luma(r: int, g: int, b: int) -> u8 {
    ((2126 * r + 7152 * g + 722 * b) / 10000) as u8
}

} // verus!
