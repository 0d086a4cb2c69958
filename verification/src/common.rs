//! Pixel formats, chrominance subsampling, colorspaces, errors, and the integer
//! conversions at the boundary with libturbojpeg.

use vstd::prelude::*;

verus! {

/// Pixel format of an uncompressed image.
#[derive(Debug, Clone, Copy, PartialEq, Eq, Structural)]
pub enum PixelFormat {
    /// Red, green, blue; three bytes per pixel.
    RGB,
    /// Blue, green, red; three bytes per pixel.
    BGR,
    /// Red, green, blue and an unused byte.
    RGBX,
    /// Blue, green, red and an unused byte.
    BGRX,
    /// An unused byte, then blue, green, red.
    XBGR,
    /// An unused byte, then red, green, blue.
    XRGB,
    /// One byte of luminance per pixel.
    GRAY,
    /// Red, green, blue, alpha.
    RGBA,
    /// Blue, green, red, alpha.
    BGRA,
    /// Alpha, blue, green, red.
    ABGR,
    /// Alpha, red, green, blue.
    ARGB,
    /// Cyan, magenta, yellow, key.
    CMYK,
}

/// Number of bytes of one pixel in the given format.
pub open spec fn spec_pixel_size(format: PixelFormat) -> nat {
    match format {
        PixelFormat::RGB | PixelFormat::BGR => 3,
        PixelFormat::GRAY => 1,
        _ => 4,
    }
}

/// The code of the pixel format in libturbojpeg (`TJPF_*`).
pub open spec fn spec_pixel_format_code(format: PixelFormat) -> i32 {
    match format {
        PixelFormat::RGB => 0,
        PixelFormat::BGR => 1,
        PixelFormat::RGBX => 2,
        PixelFormat::BGRX => 3,
        PixelFormat::XBGR => 4,
        PixelFormat::XRGB => 5,
        PixelFormat::GRAY => 6,
        PixelFormat::RGBA => 7,
        PixelFormat::BGRA => 8,
        PixelFormat::ABGR => 9,
        PixelFormat::ARGB => 10,
        PixelFormat::CMYK => 11,
    }
}

impl PixelFormat {
    /// Size of one pixel in bytes.
    pub fn size(&self) -> (size: usize)
        ensures
            size == spec_pixel_size(*self),
            1 <= size <= 4,
    {
        match self {
            PixelFormat::RGB | PixelFormat::BGR => 3,
            PixelFormat::GRAY => 1,
            _ => 4,
        }
    }

    /// The code that libturbojpeg uses for this pixel format.
    pub fn to_int(&self) -> (code: libc::c_int)
        ensures
            code == spec_pixel_format_code(*self),
    {
        match self {
            PixelFormat::RGB => 0,
            PixelFormat::BGR => 1,
            PixelFormat::RGBX => 2,
            PixelFormat::BGRX => 3,
            PixelFormat::XBGR => 4,
            PixelFormat::XRGB => 5,
            PixelFormat::GRAY => 6,
            PixelFormat::RGBA => 7,
            PixelFormat::BGRA => 8,
            PixelFormat::ABGR => 9,
            PixelFormat::ARGB => 10,
            PixelFormat::CMYK => 11,
        }
    }
}

/// Chrominance subsampling of a JPEG image.
#[derive(Debug, Clone, Copy, PartialEq, Eq, Structural)]
pub enum Subsamp {
    /// No subsampling (4:4:4).
    Sub1x1,
    /// Half horizontal resolution (4:2:2).
    Sub2x1,
    /// Half horizontal and vertical resolution (4:2:0).
    Sub2x2,
    /// Grayscale, no chrominance.
    Gray,
    /// Half vertical resolution (4:4:0).
    Sub1x2,
    /// Quarter horizontal resolution (4:1:1).
    Sub4x1,
    /// Quarter vertical resolution (4:4:1).
    Sub1x4,
    /// A subsampling that libturbojpeg does not classify.
    Unknown,
}

/// The code of the subsampling in libturbojpeg (`TJSAMP_*`).
pub open spec fn spec_subsamp_code(subsamp: Subsamp) -> i32 {
    match subsamp {
        Subsamp::Sub1x1 => 0,
        Subsamp::Sub2x1 => 1,
        Subsamp::Sub2x2 => 2,
        Subsamp::Gray => 3,
        Subsamp::Sub1x2 => 4,
        Subsamp::Sub4x1 => 5,
        Subsamp::Sub1x4 => 6,
        Subsamp::Unknown => -1i32,
    }
}

/// The subsampling that libturbojpeg denotes by `code`, if any.
pub open spec fn spec_subsamp_of(code: i32) -> Option<Subsamp> {
    if code == 0 {
        Some(Subsamp::Sub1x1)
    } else if code == 1 {
        Some(Subsamp::Sub2x1)
    } else if code == 2 {
        Some(Subsamp::Sub2x2)
    } else if code == 3 {
        Some(Subsamp::Gray)
    } else if code == 4 {
        Some(Subsamp::Sub1x2)
    } else if code == 5 {
        Some(Subsamp::Sub4x1)
    } else if code == 6 {
        Some(Subsamp::Sub1x4)
    } else if code == -1 {
        Some(Subsamp::Unknown)
    } else {
        None
    }
}

impl Subsamp {
    /// The subsampling that libturbojpeg denotes by `code`.
    pub fn from_int(code: libc::c_int) -> (res: Result<Subsamp, Error>)
        ensures
            res == (match spec_subsamp_of(code) {
                Some(s) => Ok::<Subsamp, Error>(s),
                None => Err(Error::BadSubsamp(code)),
            }),
    {
        if code == 0 {
            Ok(Subsamp::Sub1x1)
        } else if code == 1 {
            Ok(Subsamp::Sub2x1)
        } else if code == 2 {
            Ok(Subsamp::Sub2x2)
        } else if code == 3 {
            Ok(Subsamp::Gray)
        } else if code == 4 {
            Ok(Subsamp::Sub1x2)
        } else if code == 5 {
            Ok(Subsamp::Sub4x1)
        } else if code == 6 {
            Ok(Subsamp::Sub1x4)
        } else if code == -1 {
            Ok(Subsamp::Unknown)
        } else {
            Err(Error::BadSubsamp(code))
        }
    }

    /// The code that libturbojpeg uses for this subsampling.
    pub fn to_int(&self) -> (code: libc::c_int)
        ensures
            code == spec_subsamp_code(*self),
    {
        match self {
            Subsamp::Sub1x1 => 0,
            Subsamp::Sub2x1 => 1,
            Subsamp::Sub2x2 => 2,
            Subsamp::Gray => 3,
            Subsamp::Sub1x2 => 4,
            Subsamp::Sub4x1 => 5,
            Subsamp::Sub1x4 => 6,
            Subsamp::Unknown => -1,
        }
    }
}

/// Colorspace of a JPEG image.
#[derive(Debug, Clone, Copy, PartialEq, Eq, Structural)]
pub enum Colorspace {
    /// RGB, stored without transform.
    RGB,
    /// YCbCr, the usual JPEG colorspace.
    YCbCr,
    /// Grayscale.
    Gray,
    /// CMYK, stored without transform.
    CMYK,
    /// YCCK, CMYK with the CMY part transformed to YCbCr.
    YCCK,
}

/// The code of the colorspace in libturbojpeg (`TJCS_*`).
pub open spec fn spec_colorspace_code(colorspace: Colorspace) -> i32 {
    match colorspace {
        Colorspace::RGB => 0,
        Colorspace::YCbCr => 1,
        Colorspace::Gray => 2,
        Colorspace::CMYK => 3,
        Colorspace::YCCK => 4,
    }
}

/// The colorspace that libturbojpeg denotes by `code`, if any.
pub open spec fn spec_colorspace_of(code: i32) -> Option<Colorspace> {
    if code == 0 {
        Some(Colorspace::RGB)
    } else if code == 1 {
        Some(Colorspace::YCbCr)
    } else if code == 2 {
        Some(Colorspace::Gray)
    } else if code == 3 {
        Some(Colorspace::CMYK)
    } else if code == 4 {
        Some(Colorspace::YCCK)
    } else {
        None
    }
}

impl Colorspace {
    /// The colorspace that libturbojpeg denotes by `code`.
    pub fn from_int(code: libc::c_int) -> (res: Result<Colorspace, Error>)
        ensures
            res == (match spec_colorspace_of(code) {
                Some(c) => Ok::<Colorspace, Error>(c),
                None => Err(Error::BadColorspace(code)),
            }),
    {
        if code == 0 {
            Ok(Colorspace::RGB)
        } else if code == 1 {
            Ok(Colorspace::YCbCr)
        } else if code == 2 {
            Ok(Colorspace::Gray)
        } else if code == 3 {
            Ok(Colorspace::CMYK)
        } else if code == 4 {
            Ok(Colorspace::YCCK)
        } else {
            Err(Error::BadColorspace(code))
        }
    }

    /// The code that libturbojpeg uses for this colorspace.
    pub fn to_int(&self) -> (code: libc::c_int)
        ensures
            code == spec_colorspace_code(*self),
    {
        match self {
            Colorspace::RGB => 0,
            Colorspace::YCbCr => 1,
            Colorspace::Gray => 2,
            Colorspace::CMYK => 3,
            Colorspace::YCCK => 4,
        }
    }
}

/// Reading a code back gives the subsampling it was written from.
pub proof fn lemma_subsamp_code_roundtrip(subsamp: Subsamp)
    ensures
        spec_subsamp_of(spec_subsamp_code(subsamp)) == Some(subsamp),
{
}

/// Reading a code back gives the colorspace it was written from.
pub proof fn lemma_colorspace_code_roundtrip(colorspace: Colorspace)
    ensures
        spec_colorspace_of(spec_colorspace_code(colorspace)) == Some(colorspace),
{
}

/// Each pixel format is sent to libturbojpeg as its `TJPF_*` constant: in the order RGB, BGR,
/// RGBX, BGRX, XBGR, XRGB, GRAY, RGBA, BGRA, ABGR, ARGB, CMYK the formats are numbered 0 to
/// 11, so no two formats share a code.
pub proof fn lemma_pixel_format_codes()
    ensures
        spec_pixel_format_code(PixelFormat::RGB) == 0,
        spec_pixel_format_code(PixelFormat::BGR) == 1,
        spec_pixel_format_code(PixelFormat::RGBX) == 2,
        spec_pixel_format_code(PixelFormat::BGRX) == 3,
        spec_pixel_format_code(PixelFormat::XBGR) == 4,
        spec_pixel_format_code(PixelFormat::XRGB) == 5,
        spec_pixel_format_code(PixelFormat::GRAY) == 6,
        spec_pixel_format_code(PixelFormat::RGBA) == 7,
        spec_pixel_format_code(PixelFormat::BGRA) == 8,
        spec_pixel_format_code(PixelFormat::ABGR) == 9,
        spec_pixel_format_code(PixelFormat::ARGB) == 10,
        spec_pixel_format_code(PixelFormat::CMYK) == 11,
        forall|f: PixelFormat| 0 <= #[trigger] spec_pixel_format_code(f) <= 11,
        forall|f: PixelFormat, g: PixelFormat|
            #[trigger] spec_pixel_format_code(f) == #[trigger] spec_pixel_format_code(g) ==> f == g,
{
}

/// A pixel takes one byte per channel: one for gray, three for RGB and BGR, and four for
/// the formats with an alpha or an unused channel and for CMYK.
pub proof fn lemma_pixel_sizes()
    ensures
        spec_pixel_size(PixelFormat::GRAY) == 1,
        spec_pixel_size(PixelFormat::RGB) == 3,
        spec_pixel_size(PixelFormat::BGR) == 3,
        spec_pixel_size(PixelFormat::RGBX) == 4,
        spec_pixel_size(PixelFormat::BGRX) == 4,
        spec_pixel_size(PixelFormat::XBGR) == 4,
        spec_pixel_size(PixelFormat::XRGB) == 4,
        spec_pixel_size(PixelFormat::RGBA) == 4,
        spec_pixel_size(PixelFormat::BGRA) == 4,
        spec_pixel_size(PixelFormat::ABGR) == 4,
        spec_pixel_size(PixelFormat::ARGB) == 4,
        spec_pixel_size(PixelFormat::CMYK) == 4,
{
}

/// Each subsampling is sent to libturbojpeg as its `TJSAMP_*` constant: 4:4:4 is 0, 4:2:2
/// is 1, 4:2:0 is 2, gray is 3, 4:4:0 is 4, 4:1:1 is 5, 4:4:1 is 6, and unknown is -1.
/// Reading a code gives back the subsampling whose code it is, for every code, and exactly
/// the codes from -1 to 6 are known.
pub proof fn lemma_subsamp_codes()
    ensures
        spec_subsamp_code(Subsamp::Sub1x1) == 0,
        spec_subsamp_code(Subsamp::Sub2x1) == 1,
        spec_subsamp_code(Subsamp::Sub2x2) == 2,
        spec_subsamp_code(Subsamp::Gray) == 3,
        spec_subsamp_code(Subsamp::Sub1x2) == 4,
        spec_subsamp_code(Subsamp::Sub4x1) == 5,
        spec_subsamp_code(Subsamp::Sub1x4) == 6,
        spec_subsamp_code(Subsamp::Unknown) == -1,
        forall|code: i32| (#[trigger] spec_subsamp_of(code) is Some) <==> -1 <= code <= 6,
        forall|code: i32|
            #[trigger] spec_subsamp_of(code) matches Some(s) ==> spec_subsamp_code(s) == code,
{
}

/// Each colorspace is sent to and read from libturbojpeg as its `TJCS_*` constant: RGB is 0,
/// YCbCr 1, gray 2, CMYK 3 and YCCK 4; reading a code gives back the colorspace whose code
/// it is, and exactly the codes from 0 to 4 are known.
pub proof fn lemma_colorspace_codes()
    ensures
        spec_colorspace_code(Colorspace::RGB) == 0,
        spec_colorspace_code(Colorspace::YCbCr) == 1,
        spec_colorspace_code(Colorspace::Gray) == 2,
        spec_colorspace_code(Colorspace::CMYK) == 3,
        spec_colorspace_code(Colorspace::YCCK) == 4,
        forall|code: i32| (#[trigger] spec_colorspace_of(code) is Some) <==> 0 <= code <= 4,
        forall|code: i32|
            #[trigger] spec_colorspace_of(code) matches Some(c) ==> spec_colorspace_code(c)
                == code,
{
}

/// An error reported by the decompressor.
#[derive(Debug, Clone, PartialEq, Eq)]
pub enum Error {
    /// libturbojpeg reported an error, with its message.
    TurboJpegError(String),
    /// libturbojpeg could not create a handle.
    Null,
    /// libturbojpeg reported a subsampling option that is not known.
    BadSubsamp(libc::c_int),
    /// libturbojpeg reported a colorspace that is not known.
    BadColorspace(libc::c_int),
    /// The named integer value does not fit in the type it must be converted to.
    IntegerOverflow(&'static str),
    /// The output image is smaller than the decompressed image, whose width and height are given.
    OutputTooSmall(i32, i32),
}

/// Converts `value` to a C `int`, or reports that `what` overflowed.
pub fn to_c_int(value: usize, what: &'static str) -> (res: Result<libc::c_int, Error>)
    ensures
        value <= i32::MAX ==> res == Ok::<i32, Error>(value as i32),
        value > i32::MAX ==> res == Err::<i32, Error>(Error::IntegerOverflow(what)),
{
    if value <= 0x7fff_ffffusize {
        Ok(value as i32)
    } else {
        Err(Error::IntegerOverflow(what))
    }
}

/// Converts a C `int` to `usize`, or reports that `what` overflowed (it is negative).
pub fn from_c_int(value: libc::c_int, what: &'static str) -> (res: Result<usize, Error>)
    ensures
        value >= 0 ==> res == Ok::<usize, Error>(value as usize),
        value < 0 ==> res == Err::<usize, Error>(Error::IntegerOverflow(what)),
{
    if value >= 0 {
        Ok(value as usize)
    } else {
        Err(Error::IntegerOverflow(what))
    }
}

/// The error for a failed libturbojpeg call, from the message that libturbojpeg gave.
pub open spec fn spec_status(status: Result<(), String>) -> Result<(), Error> {
    match status {
        Ok(()) => Ok(()),
        Err(message) => Err(Error::TurboJpegError(message)),
    }
}

/// Turns the outcome of a libturbojpeg call into a result of this library.
pub fn status_result(status: Result<(), String>) -> (res: Result<(), Error>)
    ensures
        res == spec_status(status),
{
    match status {
        Ok(()) => Ok(()),
        Err(message) => Err(Error::TurboJpegError(message)),
    }
}

} // verus!
