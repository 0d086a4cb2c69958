//! The exchange between the decompressor's verified decisions and libturbojpeg.
//!
//! A job asks for one libturbojpeg call at a time. Whoever holds the libturbojpeg handle
//! performs the call and hands the outcome back to the job, which decides what comes next.

use vstd::prelude::*;
use crate::decompress::ScalingFraction;

verus! {

/// What libturbojpeg reports after reading a JPEG header (`tj3Get` of `TJPARAM_JPEGWIDTH`,
/// `TJPARAM_JPEGHEIGHT`, `TJPARAM_SUBSAMP`, `TJPARAM_COLORSPACE` and `TJPARAM_LOSSLESS`).
#[derive(Debug, Clone, Copy, PartialEq, Eq, Structural)]
pub struct HeaderParams {
    /// Width in pixels.
    pub width: libc::c_int,
    /// Height in pixels.
    pub height: libc::c_int,
    /// Code of the chrominance subsampling.
    pub subsamp: libc::c_int,
    /// Code of the colorspace.
    pub colorspace: libc::c_int,
    /// Whether the JPEG image is lossless (non-zero); libturbojpeg does not scale those.
    pub lossless: libc::c_int,
}

/// A call into libturbojpeg that a job needs made next.
#[derive(Debug)]
pub enum Call {
    /// `tj3Init(TJINIT_DECOMPRESS)`: create the handle that the rest of the job uses.
    /// Answered by `Reply::Init`.
    Init,
    /// `tj3DecompressHeader` on the JPEG data. Answered by `Reply::Status`.
    CheckHeader,
    /// `tj3DecompressHeader` on the JPEG data and, when it succeeds, `tj3Get` of the five
    /// header parameters. Answered by `Reply::Header`.
    ReadHeader,
    /// `tj3SetScalingFactor`. Answered by `Reply::Status`.
    SetScalingFactor(ScalingFraction),
    /// `tj3Decompress8` of the JPEG data into `pixels`, with the given pitch and pixel
    /// format code. Answered by `Reply::Written`, which hands `pixels` back.
    Decompress { pixels: Vec<u8>, pitch: libc::c_int, format: libc::c_int },
    /// `tj3DecompressToYUV8` of the JPEG data into `pixels`, with the given row alignment.
    /// Answered by `Reply::Written`, which hands `pixels` back.
    DecompressToYuv { pixels: Vec<u8>, align: libc::c_int },
    /// `tj3YUVBufSize` for the given width, alignment, height and subsampling code.
    /// Answered by `Reply::Size`.
    YuvBufSize { width: libc::c_int, align: libc::c_int, height: libc::c_int, subsamp: libc::c_int },
}

/// The outcome of a call into libturbojpeg. A failure carries the message that
/// `tj3GetErrorStr` gave.
#[derive(Debug)]
pub enum Reply {
    /// Whether `tj3Init` returned a handle.
    Init(bool),
    /// The outcome of a call that returns only a status.
    Status(Result<(), String>),
    /// The outcome of reading the header, with its parameters.
    Header(Result<HeaderParams, String>),
    /// The pixel buffer that the call was given, and the outcome of the call.
    Written(Vec<u8>, Result<(), String>),
    /// The size that `tj3YUVBufSize` returned.
    Size(u64),
}

/// Why a job stopped without a result.
#[derive(Debug, Clone, Copy, PartialEq, Eq, Structural)]
pub enum Fault {
    /// The reply does not answer the call that the job asked for, or a pixel buffer came
    /// back with another length than it was sent with.
    UnexpectedReply,
    /// The YUV output image is smaller than libturbojpeg needs, or its size cannot be
    /// computed.
    InvalidOutput,
    /// The size of the image to allocate overflows `usize`.
    SizeOverflow,
}

/// What a job does next.
#[derive(Debug)]
pub enum Next<J, T> {
    /// Make the call, then resume the job with its outcome.
    Call(J, Call),
    /// The job is over, with this result.
    Done(T),
    /// The job cannot go on; the caller must not go on either.
    Abort(Fault),
}

} // verus!
