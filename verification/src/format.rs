//! The closed sets of output container formats and resampling filters, and
//! the validated resolution of host-supplied tokens into them.

use vstd::prelude::*;

use crate::error::{ErrorKind, ImgError};

verus! {

/// An output container format. JPEG carries its compression quality.
#[derive(Clone, Copy, Debug, PartialEq, Eq, Structural)]
pub enum Format {
    Png,
    Gif,
    Ico,
    Bmp,
    Jpeg(u8),
}

/// A resampling filter for the resize operations.
#[derive(Clone, Copy, Debug, PartialEq, Eq, Structural)]
pub enum Filter {
    Nearest,
    Triangle,
    CatmullRom,
    Gaussian,
    Lanczos3,
}

/// A format token as the host supplies it: either a bare name, or a name
/// paired with an 8-bit parameter.
pub enum FormatToken {
    Name(String),
    Pair(String, u8),
}

/// Which format, if any, a token resolves to. A bare name must be one of
/// `PNG`, `GIF`, `ICO`, `BMP`; the only recognized pair is `("JPEG", quality)`.
pub open spec fn spec_resolve_format(t: FormatToken) -> Option<Format> {
    match t {
        FormatToken::Name(s) => {
            if s@ == "PNG"@ {
                Some(Format::Png)
            } else if s@ == "GIF"@ {
                Some(Format::Gif)
            } else if s@ == "ICO"@ {
                Some(Format::Ico)
            } else if s@ == "BMP"@ {
                Some(Format::Bmp)
            } else {
                None
            }
        },
        FormatToken::Pair(s, q) => {
            if s@ == "JPEG"@ {
                Some(Format::Jpeg(q))
            } else {
                None
            }
        },
    }
}

/// Which filter, if any, a name resolves to.
pub open spec fn spec_resolve_filter(s: Seq<char>) -> Option<Filter> {
    if s == "Nearest"@ {
        Some(Filter::Nearest)
    } else if s == "Triangle"@ {
        Some(Filter::Triangle)
    } else if s == "CatmullRom"@ {
        Some(Filter::CatmullRom)
    } else if s == "Gaussian"@ {
        Some(Filter::Gaussian)
    } else if s == "Lanczos3"@ {
        Some(Filter::Lanczos3)
    } else {
        None
    }
}

/// String equality by view.
fn str_eq(a: &str, b: &str) -> (r: bool)
    ensures
        r == (a@ == b@),
{
    let sa = a.to_owned();
    let sb = b.to_owned();
    sa == sb
}

impl Format {
    /// Resolve a host-supplied token; any unrecognized shape is a
    /// validation error, never a silent default.
    pub fn resolve(t: &FormatToken) -> (r: Result<Format, ImgError>)
        ensures
            match spec_resolve_format(*t) {
                Some(f) => r == Ok::<Format, ImgError>(f),
                None => r is Err && r->Err_0.kind == ErrorKind::Validation,
            },
    {
        match t {
            FormatToken::Name(s) => {
                if str_eq(s.as_str(), "PNG") {
                    Ok(Format::Png)
                } else if str_eq(s.as_str(), "GIF") {
                    Ok(Format::Gif)
                } else if str_eq(s.as_str(), "ICO") {
                    Ok(Format::Ico)
                } else if str_eq(s.as_str(), "BMP") {
                    Ok(Format::Bmp)
                } else {
                    Err(ImgError::validation("unrecognized image format name"))
                }
            },
            FormatToken::Pair(s, q) => {
                if str_eq(s.as_str(), "JPEG") {
                    Ok(Format::Jpeg(*q))
                } else {
                    Err(ImgError::validation("unrecognized image format pair"))
                }
            },
        }
    }
}

impl Filter {
    /// Resolve a filter name; any unrecognized name is a validation error,
    /// never a silent default.
    pub fn resolve(name: &str) -> (r: Result<Filter, ImgError>)
        ensures
            match spec_resolve_filter(name@) {
                Some(f) => r == Ok::<Filter, ImgError>(f),
                None => r is Err && r->Err_0.kind == ErrorKind::Validation,
            },
    {
        if str_eq(name, "Nearest") {
            Ok(Filter::Nearest)
        } else if str_eq(name, "Triangle") {
            Ok(Filter::Triangle)
        } else if str_eq(name, "CatmullRom") {
            Ok(Filter::CatmullRom)
        } else if str_eq(name, "Gaussian") {
            Ok(Filter::Gaussian)
        } else if str_eq(name, "Lanczos3") {
            Ok(Filter::Lanczos3)
        } else {
            Err(ImgError::validation("unrecognized filter name"))
        }
    }
}

/// A convolution kernel must hold exactly nine weights (a 3 by 3 matrix);
/// any other length is a validation error, never truncated or padded.
pub fn validate_kernel_len(len: usize) -> (r: Result<(), ImgError>)
    ensures
        r is Ok <==> len == 9,
        r is Err ==> r->Err_0.kind == ErrorKind::Validation,
{
    if len == 9 {
        Ok(())
    } else {
        Err(ImgError::validation("kernel must be 3 x 3"))
    }
}

} // verus!
