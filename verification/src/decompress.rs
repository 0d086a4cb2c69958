//! Scaling, JPEG headers, and the decompressor's calls that read headers and set the scaling.

use vstd::prelude::*;
use crate::common::{
    Colorspace, Error, Subsamp, from_c_int, spec_colorspace_of, spec_status, spec_subsamp_code,
    spec_subsamp_of, status_result, to_c_int,
};
use crate::protocol::{Call, Fault, HeaderParams, Next, Reply};

verus! {

/// Scaling factor applied while decompressing: libturbojpeg scales by skipping DCT coefficients.
#[derive(Debug, Clone, Copy, PartialEq, Eq, Structural)]
#[non_exhaustive]
pub enum ScalingFactor {
    /// No scaling.
    One,
    /// 1/2 scale resolution.
    OneHalf,
    /// 1/4 scale resolution.
    OneQuarter,
    /// 1/8 scale resolution.
    OneEighth,
}

/// A scaling factor as the fraction `num / denom` that libturbojpeg takes (`tjscalingfactor`).
#[derive(Debug, Clone, Copy, PartialEq, Eq, Structural)]
pub struct ScalingFraction {
    /// Numerator.
    pub num: libc::c_int,
    /// Denominator.
    pub denom: libc::c_int,
}

/// The denominator of the scaling factor: the image shrinks by this ratio in each dimension.
pub open spec fn spec_denom(factor: ScalingFactor) -> int {
    match factor {
        ScalingFactor::One => 1,
        ScalingFactor::OneHalf => 2,
        ScalingFactor::OneQuarter => 4,
        ScalingFactor::OneEighth => 8,
    }
}

impl ScalingFactor {
    /// The fraction that libturbojpeg takes for this factor.
    pub open spec fn spec_fraction(self) -> ScalingFraction {
        ScalingFraction { num: 1, denom: spec_denom(self) as i32 }
    }

    /// The fraction that libturbojpeg takes for this factor.
    pub fn fraction(self) -> (fraction: ScalingFraction)
        ensures
            fraction == self.spec_fraction(),
    {
        match self {
            ScalingFactor::One => ScalingFraction { num: 1, denom: 1 },
            ScalingFactor::OneHalf => ScalingFraction { num: 1, denom: 2 },
            ScalingFactor::OneQuarter => ScalingFraction { num: 1, denom: 4 },
            ScalingFactor::OneEighth => ScalingFraction { num: 1, denom: 8 },
        }
    }
}

/// Each factor is sent to libturbojpeg as the fraction 1/d, d being the ratio that the image
/// shrinks by: 1/1, 1/2, 1/4 and 1/8.
pub proof fn lemma_scaling_fractions()
    ensures
        ScalingFactor::One.spec_fraction() == (ScalingFraction { num: 1, denom: 1 }),
        ScalingFactor::OneHalf.spec_fraction() == (ScalingFraction { num: 1, denom: 2 }),
        ScalingFactor::OneQuarter.spec_fraction() == (ScalingFraction { num: 1, denom: 4 }),
        ScalingFactor::OneEighth.spec_fraction() == (ScalingFraction { num: 1, denom: 8 }),
        forall|f: ScalingFactor| (#[trigger] f.spec_fraction()).num == 1,
{
}

/// `n / d`, rounded up.
pub open spec fn ceil_div(n: int, d: int) -> int {
    (n + d - 1) / d
}

/// JPEG header that describes the compressed image.
#[derive(Debug, Clone, Copy, PartialEq, Eq, Structural)]
#[non_exhaustive]
pub struct DecompressHeader {
    /// Width of the image in pixels (number of columns).
    pub width: usize,
    /// Height of the image in pixels (number of rows).
    pub height: usize,
    /// Chrominance subsampling that is used in the compressed image.
    pub subsamp: Subsamp,
    /// Colorspace of the compressed image.
    pub colorspace: Colorspace,
}

/// `n / d + (1 if d does not divide n)` is `n / d` rounded up.
proof fn lemma_ceil_div(n: int, d: int)
    requires
        n >= 0,
        d > 0,
    ensures
        ceil_div(n, d) == n / d + (if n % d != 0 { 1int } else { 0int }),
        ceil_div(n, d) <= n,
        0 <= ceil_div(n, d),
{
    assert(ceil_div(n, d) == n / d + (if n % d != 0 { 1int } else { 0int })) by (nonlinear_arith)
        requires
            n >= 0,
            d > 0,
    {
        let q = n / d;
        let r = n % d;
        assert(n == q * d + r);
        assert(0 <= r < d);
        assert(n + d - 1 == (q + 1) * d + (r - 1));
        if r == 0 {
            assert(n + d - 1 == q * d + (d - 1));
        }
    }
    assert(ceil_div(n, d) <= n) by (nonlinear_arith)
        requires
            n >= 0,
            d > 0,
            ceil_div(n, d) == n / d + (if n % d != 0 { 1int } else { 0int }),
    {
        if n == 0 {
            assert(n % d == 0);
            assert(n / d == 0);
        } else {
            assert(n / d <= n);
            if n % d != 0 {
                assert(d > 1);
                assert(n / d < n);
            }
        }
    }
}

/// `n` divided by `d` (one of the scaling denominators), rounded up.
fn scale_dim(n: usize, d: usize) -> (res: usize)
    requires
        d > 0,
    ensures
        res == ceil_div(n as int, d as int),
        res <= n,
{
    proof {
        lemma_ceil_div(n as int, d as int);
    }
    if n % d != 0 {
        n / d + 1
    } else {
        n / d
    }
}

impl DecompressHeader {
    /// The header of the image that decompressing with `factor` produces.
    pub open spec fn spec_with_scale(self, factor: ScalingFactor) -> DecompressHeader {
        DecompressHeader {
            width: ceil_div(self.width as int, spec_denom(factor)) as usize,
            height: ceil_div(self.height as int, spec_denom(factor)) as usize,
            subsamp: self.subsamp,
            colorspace: self.colorspace,
        }
    }

    /// Returns a new instance of the header with the given scale: the width and the
    /// height are divided by the factor's denominator and rounded up.
    pub fn with_scale(&self, factor: ScalingFactor) -> (scaled: Self)
        ensures
            scaled == self.spec_with_scale(factor),
            scaled.width <= self.width,
            scaled.height <= self.height,
    {
        let fraction = factor.fraction();
        let denom = fraction.denom as usize;
        DecompressHeader {
            width: scale_dim(self.width, denom),
            height: scale_dim(self.height, denom),
            subsamp: self.subsamp,
            colorspace: self.colorspace,
        }
    }
}

/// Scaling by one leaves the header unchanged.
pub proof fn lemma_with_scale_one(header: DecompressHeader)
    ensures
        header.spec_with_scale(ScalingFactor::One) == header,
{
}

/// A scaled dimension is at most the unscaled one, at least one when the unscaled one is,
/// and the smallest number that the denominator scales back up to cover the unscaled one.
pub proof fn lemma_with_scale_bounds(header: DecompressHeader, factor: ScalingFactor)
    ensures
        ({
            let scaled = header.spec_with_scale(factor);
            let d = spec_denom(factor);
            &&& scaled.width <= header.width
            &&& scaled.height <= header.height
            &&& header.width > 0 ==> scaled.width > 0
            &&& header.height > 0 ==> scaled.height > 0
            &&& scaled.width * d >= header.width
            &&& scaled.height * d >= header.height
            &&& (scaled.width - 1) * d < header.width || header.width == 0
            &&& (scaled.height - 1) * d < header.height || header.height == 0
        }),
{
    let d = spec_denom(factor);
    lemma_ceil_div(header.width as int, d);
    lemma_ceil_div(header.height as int, d);
    lemma_ceil_div_cover(header.width as int, d);
    lemma_ceil_div_cover(header.height as int, d);
}

/// The header that `with_scale` gives has the size that libturbojpeg decodes an image to
/// with the fraction that the factor is sent as: each dimension multiplied by the fraction,
/// rounded up (`TJSCALED`).
pub proof fn lemma_with_scale_is_fraction(header: DecompressHeader, factor: ScalingFactor)
    ensures
        ({
            let f = factor.spec_fraction();
            let scaled = header.spec_with_scale(factor);
            &&& f.num > 0
            &&& f.denom > 0
            &&& scaled.width == (header.width * f.num + f.denom - 1) / f.denom as int
            &&& scaled.height == (header.height * f.num + f.denom - 1) / f.denom as int
        }),
{
    lemma_ceil_div(header.width as int, spec_denom(factor));
    lemma_ceil_div(header.height as int, spec_denom(factor));
}

/// `ceil_div(n, d)` is the least `c` with `c * d >= n`.
proof fn lemma_ceil_div_cover(n: int, d: int)
    requires
        n >= 0,
        d > 0,
    ensures
        ceil_div(n, d) * d >= n,
        n > 0 ==> (ceil_div(n, d) - 1) * d < n,
        n > 0 ==> ceil_div(n, d) > 0,
{
    assert(ceil_div(n, d) * d >= n && (n > 0 ==> (ceil_div(n, d) - 1) * d < n && ceil_div(n, d) > 0))
        by (nonlinear_arith)
        requires
            n >= 0,
            d > 0,
    {
        let c = (n + d - 1) / d;
        let r = (n + d - 1) % d;
        assert(n + d - 1 == c * d + r);
        assert(0 <= r < d);
    }
}

/// The header that libturbojpeg's header parameters describe, or why they describe none:
/// a negative width or height, or an unknown subsampling or colorspace code.
pub open spec fn spec_header_from_params(params: HeaderParams) -> Result<DecompressHeader, Error> {
    if params.width < 0 {
        Err(Error::IntegerOverflow("width"))
    } else if params.height < 0 {
        Err(Error::IntegerOverflow("height"))
    } else if spec_subsamp_of(params.subsamp) is None {
        Err(Error::BadSubsamp(params.subsamp))
    } else if spec_colorspace_of(params.colorspace) is None {
        Err(Error::BadColorspace(params.colorspace))
    } else {
        Ok(
            DecompressHeader {
                width: params.width as usize,
                height: params.height as usize,
                subsamp: spec_subsamp_of(params.subsamp).unwrap(),
                colorspace: spec_colorspace_of(params.colorspace).unwrap(),
            },
        )
    }
}

/// The header that a reply to `Call::ReadHeader` gives.
pub open spec fn spec_header_from_reply(reply: Result<HeaderParams, String>) -> Result<
    DecompressHeader,
    Error,
> {
    match reply {
        Ok(params) => spec_header_from_params(params),
        Err(message) => Err(Error::TurboJpegError(message)),
    }
}

/// The header that libturbojpeg's header parameters describe.
pub fn header_from_params(params: HeaderParams) -> (res: Result<DecompressHeader, Error>)
    ensures
        res == spec_header_from_params(params),
        res matches Ok(header) ==> header.width <= i32::MAX && header.height <= i32::MAX,
{
    let width = from_c_int(params.width, "width")?;
    let height = from_c_int(params.height, "height")?;
    let subsamp = Subsamp::from_int(params.subsamp)?;
    let colorspace = Colorspace::from_int(params.colorspace)?;
    Ok(DecompressHeader { width, height, subsamp, colorspace })
}

/// The header that a reply to `Call::ReadHeader` gives.
pub fn header_from_reply(reply: Result<HeaderParams, String>) -> (res: Result<
    DecompressHeader,
    Error,
>)
    ensures
        res == spec_header_from_reply(reply),
        res matches Ok(header) ==> header.width <= i32::MAX && header.height <= i32::MAX,
{
    match reply {
        Ok(params) => header_from_params(params),
        Err(message) => Err(Error::TurboJpegError(message)),
    }
}

/// The header of the image that libturbojpeg writes when it decompresses with `factor`:
/// the scaled header, or, for a lossless JPEG, which libturbojpeg does not scale, the
/// header itself.
pub open spec fn spec_decoded_header(
    header: DecompressHeader,
    lossless: bool,
    factor: ScalingFactor,
) -> DecompressHeader {
    if lossless {
        header
    } else {
        header.spec_with_scale(factor)
    }
}

/// The header of the image that libturbojpeg writes, after a reply to `Call::ReadHeader`,
/// when it decompresses with `factor`; or the error that the reply gives.
pub open spec fn spec_decoded_from_reply(
    reply: Result<HeaderParams, String>,
    factor: ScalingFactor,
) -> Result<DecompressHeader, Error> {
    match reply {
        Err(message) => Err(Error::TurboJpegError(message)),
        Ok(params) => match spec_header_from_params(params) {
            Err(e) => Err(e),
            Ok(header) => Ok(spec_decoded_header(header, params.lossless != 0, factor)),
        },
    }
}

/// The header of the image that libturbojpeg writes, after a reply to `Call::ReadHeader`,
/// when it decompresses with `factor`.
pub fn decoded_from_reply(reply: Result<HeaderParams, String>, factor: ScalingFactor) -> (res:
    Result<DecompressHeader, Error>)
    ensures
        res == spec_decoded_from_reply(reply, factor),
        res matches Ok(decoded) ==> decoded.width <= i32::MAX && decoded.height <= i32::MAX,
{
    match reply {
        Err(message) => Err(Error::TurboJpegError(message)),
        Ok(params) => {
            let header = header_from_params(params)?;
            if params.lossless != 0 {
                Ok(header)
            } else {
                Ok(header.with_scale(factor))
            }
        },
    }
}

/// Decompresses JPEG data into raw pixels. It holds the scaling factor that its
/// decompressions use; the libturbojpeg handle is held by whoever makes the calls.
#[derive(Debug)]
pub struct Decompressor {
    scaling_factor: ScalingFactor,
}

/// A job that waits for the outcome of `Call::SetScalingFactor`.
#[derive(Debug)]
pub struct ScalingJob;

/// A job that waits for the outcome of `Call::ReadHeader`.
#[derive(Debug)]
pub struct ReadHeaderJob;

impl Decompressor {
    /// The scaling factor that decompressions use.
    pub closed spec fn scaling(self) -> ScalingFactor {
        self.scaling_factor
    }

    /// The scaling factor that decompressions use.
    pub fn scaling_factor(&self) -> (factor: ScalingFactor)
        ensures
            factor == self.scaling(),
    {
        self.scaling_factor
    }

    /// Create a new decompressor, without scaling.
    pub fn new() -> (decompressor: Decompressor)
        ensures
            decompressor.scaling() == ScalingFactor::One,
    {
        Decompressor { scaling_factor: ScalingFactor::One }
    }

    /// Set the scaling factor to take effect when decompressing, and ask libturbojpeg to
    /// set it. The decompressor takes the factor at once, whatever libturbojpeg answers.
    /// Note that libturbojpeg does not scale lossless JPEG images.
    pub fn set_scaling_factor(&mut self, scaling_factor: ScalingFactor) -> (next: Next<
        ScalingJob,
        Result<(), Error>,
    >)
        ensures
            final(self).scaling() == scaling_factor,
            next matches Next::Call(_, call) && call == Call::SetScalingFactor(
                scaling_factor.spec_fraction(),
            ),
    {
        self.scaling_factor = scaling_factor;
        Next::Call(ScalingJob, Call::SetScalingFactor(scaling_factor.fraction()))
    }

    /// Read the JPEG header without decompressing the image: ask libturbojpeg for it.
    pub fn read_header(&self) -> (next: Next<ReadHeaderJob, Result<DecompressHeader, Error>>)
        ensures
            next matches Next::Call(_, call) && call == Call::ReadHeader,
    {
        Next::Call(ReadHeaderJob, Call::ReadHeader)
    }
}

impl ScalingJob {
    /// Ends with the outcome of setting the scaling factor in libturbojpeg.
    pub fn resume(self, reply: Reply) -> (next: Next<ScalingJob, Result<(), Error>>)
        ensures
            match reply {
                Reply::Status(status) => next == Next::<ScalingJob, Result<(), Error>>::Done(
                    spec_status(status),
                ),
                _ => next == Next::<ScalingJob, Result<(), Error>>::Abort(
                    Fault::UnexpectedReply,
                ),
            },
    {
        match reply {
            Reply::Status(status) => Next::Done(status_result(status)),
            _ => Next::Abort(Fault::UnexpectedReply),
        }
    }
}

impl ReadHeaderJob {
    /// Ends with the header that libturbojpeg read, or the error it reported.
    pub fn resume(self, reply: Reply) -> (next: Next<ReadHeaderJob, Result<DecompressHeader, Error>>)
        ensures
            match reply {
                Reply::Header(header) => next == Next::<
                    ReadHeaderJob,
                    Result<DecompressHeader, Error>,
                >::Done(spec_header_from_reply(header)),
                _ => next == Next::<ReadHeaderJob, Result<DecompressHeader, Error>>::Abort(
                    Fault::UnexpectedReply,
                ),
            },
    {
        match reply {
            Reply::Header(header) => Next::Done(header_from_reply(header)),
            _ => Next::Abort(Fault::UnexpectedReply),
        }
    }
}

/// A job that waits for the outcome of `Call::YuvBufSize`.
#[derive(Debug)]
pub struct YuvSizeJob;

/// The size in bytes of a YUV image that libturbojpeg reported, or the overflow of its
/// conversion to `usize`.
pub open spec fn spec_yuv_size(size: u64) -> Result<usize, Error> {
    if size <= usize::MAX {
        Ok(size as usize)
    } else {
        Err(Error::IntegerOverflow("yuv size"))
    }
}

/// The call that `yuv_pixels_len` asks for, or the overflow that stops it.
pub open spec fn spec_yuv_pixels_len_call(
    width: usize,
    align: usize,
    height: usize,
    subsamp: Subsamp,
) -> Result<Call, Error> {
    if width > i32::MAX {
        Err(Error::IntegerOverflow("width"))
    } else if align > i32::MAX {
        Err(Error::IntegerOverflow("align"))
    } else if height > i32::MAX {
        Err(Error::IntegerOverflow("height"))
    } else {
        Ok(
            Call::YuvBufSize {
                width: width as i32,
                align: align as i32,
                height: height as i32,
                subsamp: spec_subsamp_code(subsamp),
            },
        )
    }
}

/// Determine size in bytes of a YUV image: ask libturbojpeg (`tj3YUVBufSize`) for the
/// size of the planes for the image width, height, chrominance subsampling and row
/// alignment. Each of the three sizes must fit in a C `int`.
pub fn yuv_pixels_len(width: usize, align: usize, height: usize, subsamp: Subsamp) -> (next: Next<
    YuvSizeJob,
    Result<usize, Error>,
>)
    ensures
        match spec_yuv_pixels_len_call(width, align, height, subsamp) {
            Ok(c) => next matches Next::Call(_, call) && call == c,
            Err(e) => next == Next::<YuvSizeJob, Result<usize, Error>>::Done(Err(e)),
        },
{
    let width = match to_c_int(width, "width") {
        Ok(w) => w,
        Err(e) => return Next::Done(Err(e)),
    };
    let align = match to_c_int(align, "align") {
        Ok(a) => a,
        Err(e) => return Next::Done(Err(e)),
    };
    let height = match to_c_int(height, "height") {
        Ok(h) => h,
        Err(e) => return Next::Done(Err(e)),
    };
    Next::Call(YuvSizeJob, Call::YuvBufSize { width, align, height, subsamp: subsamp.to_int() })
}

/// Converts the size that `tj3YUVBufSize` returned to `usize`.
pub fn yuv_size(size: u64) -> (res: Result<usize, Error>)
    ensures
        res == spec_yuv_size(size),
{
    if size <= usize::MAX as u64 {
        Ok(size as usize)
    } else {
        Err(Error::IntegerOverflow("yuv size"))
    }
}

impl YuvSizeJob {
    /// Ends with the size that libturbojpeg reported.
    pub fn resume(self, reply: Reply) -> (next: Next<YuvSizeJob, Result<usize, Error>>)
        ensures
            match reply {
                Reply::Size(size) => next == Next::<YuvSizeJob, Result<usize, Error>>::Done(
                    spec_yuv_size(size),
                ),
                _ => next == Next::<YuvSizeJob, Result<usize, Error>>::Abort(
                    Fault::UnexpectedReply,
                ),
            },
    {
        match reply {
            Reply::Size(size) => Next::Done(yuv_size(size)),
            _ => Next::Abort(Fault::UnexpectedReply),
        }
    }
}

} // verus!
