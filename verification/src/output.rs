//! Decompression into an output image: the decisions of `Decompressor::decompress` and
//! `Decompressor::decompress_to_yuv`.

use vstd::prelude::*;
use crate::common::{
    Error, PixelFormat, Subsamp, spec_pixel_format_code, spec_status, spec_subsamp_code,
    status_result, to_c_int,
};
use crate::decompress::{
    Decompressor, ScalingFactor, decoded_from_reply, spec_decoded_from_reply,
    spec_yuv_pixels_len_call, spec_yuv_size, yuv_size,
};
use crate::image::{Image, YuvImage, is_power_of_two, layout_fits};
use crate::protocol::{Call, Fault, Next, Reply};

verus! {

/// Where a decompression into packed pixels stands.
#[derive(Debug)]
pub enum DecompressStage {
    /// Waiting for the outcome of `Call::CheckHeader`; the job holds the pixel data.
    CheckHeader(Vec<u8>),
    /// Waiting for the outcome of `Call::ReadHeader`; the job holds the pixel data.
    ReadHeader(Vec<u8>),
    /// Waiting for the pixel data, of length `len`, to come back from `Call::Decompress`,
    /// which writes an image of `width` by `height` pixels.
    Pixels { len: usize, width: usize, height: usize },
}

/// A decompression of JPEG data into an image with packed pixels.
#[derive(Debug)]
pub struct DecompressJob {
    width: usize,
    pitch: usize,
    height: usize,
    format: PixelFormat,
    scaling: ScalingFactor,
    stage: DecompressStage,
}

impl DecompressJob {
    #[verifier::type_invariant]
    spec fn inv(self) -> bool {
        &&& self.width <= i32::MAX
        &&& self.pitch <= i32::MAX
        &&& self.height <= i32::MAX
        &&& match self.stage {
            DecompressStage::CheckHeader(pixels) => self.output_with(pixels).fits(),
            DecompressStage::ReadHeader(pixels) => self.output_with(pixels).fits(),
            DecompressStage::Pixels { len, width, height } => {
                &&& layout_fits(
                    self.width as int,
                    self.pitch as int,
                    self.height as int,
                    self.format,
                    len as int,
                )
                &&& width <= self.width
                &&& height <= self.height
            },
        }
    }

    /// Width of the output image in pixels.
    pub closed spec fn width(self) -> usize {
        self.width
    }

    /// Size of one row of the output image in bytes.
    pub closed spec fn pitch(self) -> usize {
        self.pitch
    }

    /// Height of the output image in pixels.
    pub closed spec fn height(self) -> usize {
        self.height
    }

    /// Pixel format of the output image.
    pub closed spec fn format(self) -> PixelFormat {
        self.format
    }

    /// Where the job stands.
    pub closed spec fn stage(self) -> DecompressStage {
        self.stage
    }

    /// The scaling factor that the decompression uses.
    pub closed spec fn scaling(self) -> ScalingFactor {
        self.scaling
    }

    /// The output image, with the given pixel data.
    pub open spec fn output_with(self, pixels: Vec<u8>) -> Image {
        Image {
            pixels,
            width: self.width(),
            pitch: self.pitch(),
            height: self.height(),
            format: self.format(),
        }
    }

    /// Both jobs write the same output image with the same scaling.
    pub open spec fn same_output(self, other: DecompressJob) -> bool {
        &&& self.width() == other.width()
        &&& self.pitch() == other.pitch()
        &&& self.height() == other.height()
        &&& self.format() == other.format()
        &&& self.scaling() == other.scaling()
    }

    /// The job is the one that `Decompressor::decompress` starts on `output` with
    /// `scaling`: it has not yet had a reply.
    pub open spec fn started_on(self, output: Image, scaling: ScalingFactor) -> bool {
        &&& self.stage() == DecompressStage::CheckHeader(output.pixels)
        &&& self.output_with(output.pixels) == output
        &&& self.scaling() == scaling
    }

    /// `next` is what the job does with `reply`.
    ///
    /// After the header check, a failure ends the job with libturbojpeg's message; a success
    /// asks to read the header. After the header, the job ends with the header's error, or
    /// with `OutputTooSmall` when the image that libturbojpeg writes (the header scaled by the
    /// job's factor; unscaled for a lossless JPEG) is wider or taller than the output;
    /// otherwise it hands the pixel data to `Call::Decompress`. When the pixel data comes
    /// back with its length, the job ends with the output and the outcome. Any other reply
    /// aborts the job.
    pub open spec fn steps_to(
        self,
        reply: Reply,
        next: Next<DecompressJob, (Image, Result<(), Error>)>,
    ) -> bool {
        match self.stage() {
            DecompressStage::CheckHeader(pixels) => match reply {
                Reply::Status(Err(message)) => next == Next::<
                    DecompressJob,
                    (Image, Result<(), Error>),
                >::Done((self.output_with(pixels), Err(Error::TurboJpegError(message)))),
                Reply::Status(Ok(())) => next matches Next::Call(job, call) && call
                    == Call::ReadHeader && job.stage() == DecompressStage::ReadHeader(pixels)
                    && job.same_output(self),
                _ => next == Next::<DecompressJob, (Image, Result<(), Error>)>::Abort(
                    Fault::UnexpectedReply,
                ),
            },
            DecompressStage::ReadHeader(pixels) => match reply {
                Reply::Header(header) => match spec_decoded_from_reply(header, self.scaling()) {
                    Err(e) => next == Next::<DecompressJob, (Image, Result<(), Error>)>::Done(
                        (self.output_with(pixels), Err(e)),
                    ),
                    Ok(decoded) => {
                        let output = self.output_with(pixels);
                        if output.width < decoded.width || output.height < decoded.height {
                            next == Next::<DecompressJob, (Image, Result<(), Error>)>::Done(
                                (
                                    output,
                                    Err(
                                        Error::OutputTooSmall(
                                            decoded.width as i32,
                                            decoded.height as i32,
                                        ),
                                    ),
                                ),
                            )
                        } else {
                            &&& next matches Next::Call(job, call)
                            &&& call == (Call::Decompress {
                                pixels,
                                pitch: output.pitch as i32,
                                format: spec_pixel_format_code(output.format),
                            })
                            &&& job.stage() == (DecompressStage::Pixels {
                                len: pixels.len() as usize,
                                width: decoded.width,
                                height: decoded.height,
                            })
                            &&& job.same_output(self)
                        }
                    },
                },
                _ => next == Next::<DecompressJob, (Image, Result<(), Error>)>::Abort(
                    Fault::UnexpectedReply,
                ),
            },
            DecompressStage::Pixels { len, .. } => match reply {
                Reply::Written(pixels, status) => if pixels.len() == len {
                    next == Next::<DecompressJob, (Image, Result<(), Error>)>::Done(
                        (self.output_with(pixels), spec_status(status)),
                    )
                } else {
                    next == Next::<DecompressJob, (Image, Result<(), Error>)>::Abort(
                        Fault::UnexpectedReply,
                    )
                },
                _ => next == Next::<DecompressJob, (Image, Result<(), Error>)>::Abort(
                    Fault::UnexpectedReply,
                ),
            },
        }
    }

    /// Two jobs that stand at the same stage and write the same output with the same
    /// scaling are the same job: from there on they make the same steps.
    pub proof fn lemma_same_job(self, other: DecompressJob)
        requires
            self.stage() == other.stage(),
            self.same_output(other),
        ensures
            self == other,
    {
    }

    /// Two jobs started on the same output with the same scaling are the same job.
    pub proof fn lemma_started_on_unique(self, other: DecompressJob, output: Image, scaling: ScalingFactor)
        requires
            self.started_on(output, scaling),
            other.started_on(output, scaling),
        ensures
            self == other,
    {
    }

    /// Goes on with the outcome of the call that the job asked for.
    pub fn resume(self, reply: Reply) -> (next: Next<DecompressJob, (Image, Result<(), Error>)>)
        ensures
            self.steps_to(reply, next),
            // libturbojpeg is only asked to write pixels into data that the whole image it
            // writes fits in, with the pitch and format of the output image.
            next matches Next::Call(job, Call::Decompress { pixels, pitch, format }) ==> {
                let output = job.output_with(pixels);
                &&& output.fits()
                &&& pitch == output.pitch
                &&& format == spec_pixel_format_code(output.format)
                &&& job.stage() matches DecompressStage::Pixels { len, width, height }
                &&& len == pixels.len()
                &&& width <= output.width
                &&& height <= output.height
            },
    {
        proof {
            use_type_invariant(&self);
        }
        let DecompressJob { width, pitch, height, format, scaling, stage } = self;
        match stage {
            DecompressStage::CheckHeader(pixels) => match reply {
                Reply::Status(Err(message)) => Next::Done(
                    (
                        Image { pixels, width, pitch, height, format },
                        Err(Error::TurboJpegError(message)),
                    ),
                ),
                Reply::Status(Ok(())) => Next::Call(
                    DecompressJob {
                        width,
                        pitch,
                        height,
                        format,
                        scaling,
                        stage: DecompressStage::ReadHeader(pixels),
                    },
                    Call::ReadHeader,
                ),
                _ => Next::Abort(Fault::UnexpectedReply),
            },
            DecompressStage::ReadHeader(pixels) => match reply {
                Reply::Header(header) => match decoded_from_reply(header, scaling) {
                    Err(e) => Next::Done((Image { pixels, width, pitch, height, format }, Err(e))),
                    Ok(decoded) => {
                        let decoded_width = decoded.width as i32;
                        let decoded_height = decoded.height as i32;
                        if (width as i32) < decoded_width || (height as i32) < decoded_height {
                            Next::Done(
                                (
                                    Image { pixels, width, pitch, height, format },
                                    Err(Error::OutputTooSmall(decoded_width, decoded_height)),
                                ),
                            )
                        } else {
                            let len = pixels.len();
                            Next::Call(
                                DecompressJob {
                                    width,
                                    pitch,
                                    height,
                                    format,
                                    scaling,
                                    stage: DecompressStage::Pixels {
                                        len,
                                        width: decoded.width,
                                        height: decoded.height,
                                    },
                                },
                                Call::Decompress {
                                    pixels,
                                    pitch: pitch as i32,
                                    format: format.to_int(),
                                },
                            )
                        }
                    },
                },
                _ => Next::Abort(Fault::UnexpectedReply),
            },
            DecompressStage::Pixels { len, .. } => match reply {
                Reply::Written(pixels, status) => {
                    if pixels.len() == len {
                        Next::Done(
                            (Image { pixels, width, pitch, height, format }, status_result(status)),
                        )
                    } else {
                        Next::Abort(Fault::UnexpectedReply)
                    }
                },
                _ => Next::Abort(Fault::UnexpectedReply),
            },
        }
    }
}

impl Decompressor {
    /// Decompress a JPEG image into `output`, with the scaling factor of this decompressor.
    ///
    /// The rows of `output` must fit in its pixel data. Each of its width, pitch and height
    /// must fit in a C `int`. libturbojpeg checks the JPEG header, reads it, and, when the
    /// image that it writes (scaled, unless the JPEG is lossless) fits in `output`,
    /// decompresses into `output`'s pixels. The job ends with `output` and the outcome.
    pub fn decompress(&self, output: Image) -> (next: Next<DecompressJob, (Image, Result<(), Error>)>)
        requires
            output.fits(),
        ensures
            output.width > i32::MAX ==> next == Next::<DecompressJob, (Image, Result<(), Error>)>::Done(
                (output, Err(Error::IntegerOverflow("width"))),
            ),
            output.width <= i32::MAX && output.pitch > i32::MAX ==> next == Next::<
                DecompressJob,
                (Image, Result<(), Error>),
            >::Done((output, Err(Error::IntegerOverflow("pitch")))),
            output.width <= i32::MAX && output.pitch <= i32::MAX && output.height > i32::MAX
                ==> next == Next::<DecompressJob, (Image, Result<(), Error>)>::Done(
                (output, Err(Error::IntegerOverflow("height"))),
            ),
            output.width <= i32::MAX && output.pitch <= i32::MAX && output.height <= i32::MAX
                ==> (next matches Next::Call(job, call) && call == Call::CheckHeader
                && job.started_on(output, self.scaling())),
    {
        if let Err(e) = to_c_int(output.width, "width") {
            return Next::Done((output, Err(e)));
        }
        if let Err(e) = to_c_int(output.pitch, "pitch") {
            return Next::Done((output, Err(e)));
        }
        if let Err(e) = to_c_int(output.height, "height") {
            return Next::Done((output, Err(e)));
        }
        let Image { pixels, width, pitch, height, format } = output;
        Next::Call(
            DecompressJob {
                width,
                pitch,
                height,
                format,
                scaling: self.scaling_factor(),
                stage: DecompressStage::CheckHeader(pixels),
            },
            Call::CheckHeader,
        )
    }
}

/// Where a decompression into a YUV image stands.
#[derive(Debug)]
pub enum YuvStage {
    /// Waiting for the size that the output itself needs (`Call::YuvBufSize` for the
    /// output's width, alignment, height and subsampling); the job holds the pixel data.
    CheckSize(Vec<u8>),
    /// Waiting for the outcome of `Call::ReadHeader`; the job holds the pixel data.
    ReadHeader(Vec<u8>),
    /// Waiting for the size of the planes that libturbojpeg writes: an image of `width` by
    /// `height` pixels with the JPEG's subsampling `subsamp`, with the output's alignment
    /// (`Call::YuvBufSize`); the job holds the pixel data.
    PlaneSize { pixels: Vec<u8>, width: usize, height: usize, subsamp: Subsamp },
    /// Waiting for the pixel data, of length `len`, to come back from
    /// `Call::DecompressToYuv`, which writes the planes of an image of `width` by `height`
    /// pixels with subsampling `subsamp`; libturbojpeg reported that they take `needed`
    /// bytes.
    Pixels { len: usize, width: usize, height: usize, subsamp: Subsamp, needed: usize },
}

/// A decompression of JPEG data into a YUV image.
#[derive(Debug)]
pub struct YuvJob {
    width: usize,
    align: usize,
    height: usize,
    subsamp: Subsamp,
    scaling: ScalingFactor,
    stage: YuvStage,
}

impl YuvJob {
    #[verifier::type_invariant]
    spec fn inv(self) -> bool {
        &&& self.width <= i32::MAX
        &&& self.align <= i32::MAX
        &&& self.height <= i32::MAX
        &&& is_power_of_two(self.align as int)
        &&& match self.stage {
            YuvStage::CheckSize(_) => true,
            YuvStage::ReadHeader(_) => true,
            YuvStage::PlaneSize { width, height, .. } => {
                &&& width <= self.width
                &&& height <= self.height
            },
            YuvStage::Pixels { len, width, height, needed, .. } => {
                &&& 0 < needed <= len
                &&& width <= self.width
                &&& height <= self.height
            },
        }
    }

    /// Width of the output image in pixels.
    pub closed spec fn width(self) -> usize {
        self.width
    }

    /// Row alignment of the output image in bytes.
    pub closed spec fn align(self) -> usize {
        self.align
    }

    /// Height of the output image in pixels.
    pub closed spec fn height(self) -> usize {
        self.height
    }

    /// Chrominance subsampling of the output image.
    pub closed spec fn subsamp(self) -> Subsamp {
        self.subsamp
    }

    /// Where the job stands.
    pub closed spec fn stage(self) -> YuvStage {
        self.stage
    }

    /// The scaling factor that the decompression uses.
    pub closed spec fn scaling(self) -> ScalingFactor {
        self.scaling
    }

    /// The output image, with the given pixel data.
    pub open spec fn output_with(self, pixels: Vec<u8>) -> YuvImage {
        YuvImage {
            pixels,
            width: self.width(),
            align: self.align(),
            height: self.height(),
            subsamp: self.subsamp(),
        }
    }

    /// Both jobs write the same output image with the same scaling.
    pub open spec fn same_output(self, other: YuvJob) -> bool {
        &&& self.width() == other.width()
        &&& self.align() == other.align()
        &&& self.height() == other.height()
        &&& self.subsamp() == other.subsamp()
        &&& self.scaling() == other.scaling()
    }

    /// The job is the one that `Decompressor::decompress_to_yuv` starts on `output` with
    /// `scaling`: it has not yet had a reply.
    pub open spec fn started_on(self, output: YuvImage, scaling: ScalingFactor) -> bool {
        &&& self.stage() == YuvStage::CheckSize(output.pixels)
        &&& self.output_with(output.pixels) == output
        &&& self.scaling() == scaling
    }

    /// `next` is what the job does with `reply`.
    ///
    /// With the size that the output itself needs, the job aborts when it cannot be
    /// converted or exceeds the pixel data, and asks to read the header otherwise. After the
    /// header, the job ends with the header's error, or with `OutputTooSmall` when the image
    /// that libturbojpeg writes (the header scaled by the job's factor; unscaled for a
    /// lossless JPEG) is wider or taller than the output; otherwise it asks for the size of
    /// the planes of that image with the JPEG's own subsampling and the output's alignment.
    /// With that size, the job ends with `IntegerOverflow` when it cannot be converted, with
    /// `BadSubsamp` when it is 0 (libturbojpeg cannot size planes of that subsampling), and
    /// with `OutputTooSmall` when it exceeds the pixel data; otherwise it hands the pixel data
    /// to `Call::DecompressToYuv`. When the pixel data comes back with its length, the job
    /// ends with the output and the outcome. Any other reply aborts the job.
    pub open spec fn steps_to(
        self,
        reply: Reply,
        next: Next<YuvJob, (YuvImage, Result<(), Error>)>,
    ) -> bool {
        match self.stage() {
            YuvStage::CheckSize(pixels) => match reply {
                Reply::Size(size) => match spec_yuv_size(size) {
                    Ok(size) => if size <= pixels.len() {
                        next matches Next::Call(job, call) && call == Call::ReadHeader
                            && job.stage() == YuvStage::ReadHeader(pixels) && job.same_output(self)
                    } else {
                        next == Next::<YuvJob, (YuvImage, Result<(), Error>)>::Abort(
                            Fault::InvalidOutput,
                        )
                    },
                    Err(_) => next == Next::<YuvJob, (YuvImage, Result<(), Error>)>::Abort(
                        Fault::InvalidOutput,
                    ),
                },
                _ => next == Next::<YuvJob, (YuvImage, Result<(), Error>)>::Abort(
                    Fault::UnexpectedReply,
                ),
            },
            YuvStage::ReadHeader(pixels) => match reply {
                Reply::Header(header) => match spec_decoded_from_reply(header, self.scaling()) {
                    Err(e) => next == Next::<YuvJob, (YuvImage, Result<(), Error>)>::Done(
                        (self.output_with(pixels), Err(e)),
                    ),
                    Ok(decoded) => {
                        let output = self.output_with(pixels);
                        if output.width < decoded.width || output.height < decoded.height {
                            next == Next::<YuvJob, (YuvImage, Result<(), Error>)>::Done(
                                (
                                    output,
                                    Err(
                                        Error::OutputTooSmall(
                                            decoded.width as i32,
                                            decoded.height as i32,
                                        ),
                                    ),
                                ),
                            )
                        } else {
                            &&& next matches Next::Call(job, call)
                            &&& call == (Call::YuvBufSize {
                                width: decoded.width as i32,
                                align: output.align as i32,
                                height: decoded.height as i32,
                                subsamp: spec_subsamp_code(decoded.subsamp),
                            })
                            &&& job.stage() == (YuvStage::PlaneSize {
                                pixels,
                                width: decoded.width,
                                height: decoded.height,
                                subsamp: decoded.subsamp,
                            })
                            &&& job.same_output(self)
                        }
                    },
                },
                _ => next == Next::<YuvJob, (YuvImage, Result<(), Error>)>::Abort(
                    Fault::UnexpectedReply,
                ),
            },
            YuvStage::PlaneSize { pixels, width, height, subsamp } => match reply {
                Reply::Size(size) => match spec_yuv_size(size) {
                    Err(e) => next == Next::<YuvJob, (YuvImage, Result<(), Error>)>::Done(
                        (self.output_with(pixels), Err(e)),
                    ),
                    Ok(needed) => if needed == 0 {
                        next == Next::<YuvJob, (YuvImage, Result<(), Error>)>::Done(
                            (
                                self.output_with(pixels),
                                Err(Error::BadSubsamp(spec_subsamp_code(subsamp))),
                            ),
                        )
                    } else if needed > pixels.len() {
                        next == Next::<YuvJob, (YuvImage, Result<(), Error>)>::Done(
                            (
                                self.output_with(pixels),
                                Err(Error::OutputTooSmall(width as i32, height as i32)),
                            ),
                        )
                    } else {
                        &&& next matches Next::Call(job, call)
                        &&& call == (Call::DecompressToYuv {
                            pixels,
                            align: self.align() as i32,
                        })
                        &&& job.stage() == (YuvStage::Pixels {
                            len: pixels.len() as usize,
                            width,
                            height,
                            subsamp,
                            needed,
                        })
                        &&& job.same_output(self)
                    },
                },
                _ => next == Next::<YuvJob, (YuvImage, Result<(), Error>)>::Abort(
                    Fault::UnexpectedReply,
                ),
            },
            YuvStage::Pixels { len, .. } => match reply {
                Reply::Written(pixels, status) => if pixels.len() == len {
                    next == Next::<YuvJob, (YuvImage, Result<(), Error>)>::Done(
                        (self.output_with(pixels), spec_status(status)),
                    )
                } else {
                    next == Next::<YuvJob, (YuvImage, Result<(), Error>)>::Abort(
                        Fault::UnexpectedReply,
                    )
                },
                _ => next == Next::<YuvJob, (YuvImage, Result<(), Error>)>::Abort(
                    Fault::UnexpectedReply,
                ),
            },
        }
    }

    /// Two jobs that stand at the same stage and write the same output with the same
    /// scaling are the same job: from there on they make the same steps.
    pub proof fn lemma_same_job(self, other: YuvJob)
        requires
            self.stage() == other.stage(),
            self.same_output(other),
        ensures
            self == other,
    {
    }

    /// Two jobs started on the same output with the same scaling are the same job.
    pub proof fn lemma_started_on_unique(self, other: YuvJob, output: YuvImage, scaling: ScalingFactor)
        requires
            self.started_on(output, scaling),
            other.started_on(output, scaling),
        ensures
            self == other,
    {
    }

    /// Goes on with the outcome of the call that the job asked for.
    pub fn resume(self, reply: Reply) -> (next: Next<YuvJob, (YuvImage, Result<(), Error>)>)
        ensures
            self.steps_to(reply, next),
            // libturbojpeg is only asked to write planes into data that holds at least the
            // (non-zero) size it reported for the planes it writes: the image it decodes,
            // no larger than the output, with the JPEG's own subsampling and the output's
            // alignment, a power of two.
            next matches Next::Call(job, Call::DecompressToYuv { pixels, align }) ==> {
                let output = job.output_with(pixels);
                &&& is_power_of_two(output.align as int)
                &&& align == output.align
                &&& job.stage() matches YuvStage::Pixels { len, width, height, needed, .. }
                &&& len == pixels.len()
                &&& 0 < needed <= len
                &&& width <= output.width
                &&& height <= output.height
            },
    {
        proof {
            use_type_invariant(&self);
        }
        let YuvJob { width, align, height, subsamp, scaling, stage } = self;
        match stage {
            YuvStage::CheckSize(pixels) => match reply {
                Reply::Size(size) => match yuv_size(size) {
                    Ok(size) => {
                        if size <= pixels.len() {
                            Next::Call(
                                YuvJob {
                                    width,
                                    align,
                                    height,
                                    subsamp,
                                    scaling,
                                    stage: YuvStage::ReadHeader(pixels),
                                },
                                Call::ReadHeader,
                            )
                        } else {
                            Next::Abort(Fault::InvalidOutput)
                        }
                    },
                    Err(_) => Next::Abort(Fault::InvalidOutput),
                },
                _ => Next::Abort(Fault::UnexpectedReply),
            },
            YuvStage::ReadHeader(pixels) => match reply {
                Reply::Header(header) => match decoded_from_reply(header, scaling) {
                    Err(e) => Next::Done(
                        (YuvImage { pixels, width, align, height, subsamp }, Err(e)),
                    ),
                    Ok(decoded) => {
                        let decoded_width = decoded.width as i32;
                        let decoded_height = decoded.height as i32;
                        if (width as i32) < decoded_width || (height as i32) < decoded_height {
                            Next::Done(
                                (
                                    YuvImage { pixels, width, align, height, subsamp },
                                    Err(Error::OutputTooSmall(decoded_width, decoded_height)),
                                ),
                            )
                        } else {
                            let code = decoded.subsamp.to_int();
                            Next::Call(
                                YuvJob {
                                    width,
                                    align,
                                    height,
                                    subsamp,
                                    scaling,
                                    stage: YuvStage::PlaneSize {
                                        pixels,
                                        width: decoded.width,
                                        height: decoded.height,
                                        subsamp: decoded.subsamp,
                                    },
                                },
                                Call::YuvBufSize {
                                    width: decoded_width,
                                    align: align as i32,
                                    height: decoded_height,
                                    subsamp: code,
                                },
                            )
                        }
                    },
                },
                _ => Next::Abort(Fault::UnexpectedReply),
            },
            YuvStage::PlaneSize {
                pixels,
                width: plane_width,
                height: plane_height,
                subsamp: planes,
            } => match reply {
                Reply::Size(size) => match yuv_size(size) {
                    Err(e) => Next::Done(
                        (YuvImage { pixels, width, align, height, subsamp }, Err(e)),
                    ),
                    Ok(needed) => {
                        if needed == 0 {
                            Next::Done(
                                (
                                    YuvImage { pixels, width, align, height, subsamp },
                                    Err(Error::BadSubsamp(planes.to_int())),
                                ),
                            )
                        } else if needed > pixels.len() {
                            Next::Done(
                                (
                                    YuvImage { pixels, width, align, height, subsamp },
                                    Err(
                                        Error::OutputTooSmall(
                                            plane_width as i32,
                                            plane_height as i32,
                                        ),
                                    ),
                                ),
                            )
                        } else {
                            let len = pixels.len();
                            Next::Call(
                                YuvJob {
                                    width,
                                    align,
                                    height,
                                    subsamp,
                                    scaling,
                                    stage: YuvStage::Pixels {
                                        len,
                                        width: plane_width,
                                        height: plane_height,
                                        subsamp: planes,
                                        needed,
                                    },
                                },
                                Call::DecompressToYuv { pixels, align: align as i32 },
                            )
                        }
                    },
                },
                _ => Next::Abort(Fault::UnexpectedReply),
            },
            YuvStage::Pixels { len, .. } => match reply {
                Reply::Written(pixels, status) => {
                    if pixels.len() == len {
                        Next::Done(
                            (
                                YuvImage { pixels, width, align, height, subsamp },
                                status_result(status),
                            ),
                        )
                    } else {
                        Next::Abort(Fault::UnexpectedReply)
                    }
                },
                _ => Next::Abort(Fault::UnexpectedReply),
            },
        }
    }
}

impl Decompressor {
    /// Decompress a JPEG image into `output` as YUV, without changing the colorspace, with
    /// the scaling factor of this decompressor.
    ///
    /// The row alignment of `output` must be a power of two. libturbojpeg first reports the
    /// size that `output` needs; each of `output`'s width, alignment and height must fit in
    /// a C `int` for that, and its pixel data must be at least that long: otherwise the job
    /// aborts with `Fault::InvalidOutput`. Then libturbojpeg reads the JPEG header; when the
    /// image that it writes (scaled, unless the JPEG is lossless) is no wider and no taller
    /// than `output`, libturbojpeg reports the size of its planes with the JPEG's own
    /// subsampling, and when they fit in `output`'s pixel data, it decompresses into them.
    /// The job ends with `output` and the outcome.
    pub fn decompress_to_yuv(&self, output: YuvImage) -> (next: Next<
        YuvJob,
        (YuvImage, Result<(), Error>),
    >)
        requires
            is_power_of_two(output.align as int),
        ensures
            match spec_yuv_pixels_len_call(output.width, output.align, output.height, output.subsamp) {
                Ok(c) => next matches Next::Call(job, call) && call == c && job.started_on(
                    output,
                    self.scaling(),
                ),
                Err(_) => next == Next::<YuvJob, (YuvImage, Result<(), Error>)>::Abort(
                    Fault::InvalidOutput,
                ),
            },
    {
        let width = match to_c_int(output.width, "width") {
            Ok(w) => w,
            Err(_) => return Next::Abort(Fault::InvalidOutput),
        };
        let align = match to_c_int(output.align, "align") {
            Ok(a) => a,
            Err(_) => return Next::Abort(Fault::InvalidOutput),
        };
        let height = match to_c_int(output.height, "height") {
            Ok(h) => h,
            Err(_) => return Next::Abort(Fault::InvalidOutput),
        };
        let subsamp = output.subsamp.to_int();
        let YuvImage { pixels, width: w, align: a, height: h, subsamp: s } = output;
        Next::Call(
            YuvJob {
                width: w,
                align: a,
                height: h,
                subsamp: s,
                scaling: self.scaling_factor(),
                stage: YuvStage::CheckSize(pixels),
            },
            Call::YuvBufSize { width, align, height, subsamp },
        )
    }
}

} // verus!
