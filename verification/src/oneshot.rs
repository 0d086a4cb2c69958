//! One-shot operations that create their own decompressor: reading a header, and
//! decompressing into a newly allocated image.

use vstd::prelude::*;
use crate::common::{Error, PixelFormat, spec_pixel_size, spec_subsamp_code};
use crate::decompress::{
    DecompressHeader, Decompressor, ReadHeaderJob, ScalingFactor, YuvSizeJob,
    spec_header_from_reply, spec_yuv_pixels_len_call, spec_yuv_size, yuv_pixels_len,
};
use crate::image::{Image, YuvImage, is_power_of_two};
use crate::output::{DecompressJob, DecompressStage, YuvJob, YuvStage};
use crate::protocol::{Call, Fault, Next, Reply};

verus! {

/// Where reading a header with a new decompressor stands.
#[derive(Debug)]
pub enum HeaderTaskStage {
    /// Waiting for the outcome of `Call::Init`.
    Init,
    /// Waiting for the outcome of `Call::ReadHeader`.
    Reading,
}

/// Reading a JPEG header with a new decompressor.
#[derive(Debug)]
pub struct HeaderTask {
    stage: HeaderTaskStage,
}

impl HeaderTask {
    /// Where the task stands.
    pub closed spec fn stage(self) -> HeaderTaskStage {
        self.stage
    }

    /// Goes on with the outcome of the call that the task asked for.
    pub fn resume(self, reply: Reply) -> (next: Next<HeaderTask, Result<DecompressHeader, Error>>)
        ensures
            match self.stage() {
                HeaderTaskStage::Init => match reply {
                    Reply::Init(false) => next == Next::<
                        HeaderTask,
                        Result<DecompressHeader, Error>,
                    >::Done(Err(Error::Null)),
                    Reply::Init(true) => next matches Next::Call(task, call) && call
                        == Call::ReadHeader && task.stage() == HeaderTaskStage::Reading,
                    _ => next == Next::<HeaderTask, Result<DecompressHeader, Error>>::Abort(
                        Fault::UnexpectedReply,
                    ),
                },
                HeaderTaskStage::Reading => match reply {
                    Reply::Header(header) => next == Next::<
                        HeaderTask,
                        Result<DecompressHeader, Error>,
                    >::Done(spec_header_from_reply(header)),
                    _ => next == Next::<HeaderTask, Result<DecompressHeader, Error>>::Abort(
                        Fault::UnexpectedReply,
                    ),
                },
            },
    {
        match self.stage {
            HeaderTaskStage::Init => match reply {
                Reply::Init(created) => {
                    if !created {
                        return Next::Done(Err(Error::Null));
                    }
                    let decompressor = Decompressor::new();
                    match decompressor.read_header() {
                        Next::Call(_, call) => Next::Call(
                            HeaderTask { stage: HeaderTaskStage::Reading },
                            call,
                        ),
                        Next::Done(res) => Next::Done(res),
                        Next::Abort(fault) => Next::Abort(fault),
                    }
                },
                _ => Next::Abort(Fault::UnexpectedReply),
            },
            HeaderTaskStage::Reading => match ReadHeaderJob.resume(reply) {
                Next::Call(_, call) => Next::Call(HeaderTask { stage: HeaderTaskStage::Reading }, call),
                Next::Done(res) => Next::Done(res),
                Next::Abort(fault) => Next::Abort(fault),
            },
        }
    }
}

/// Read the JPEG header without decompressing the image, with a new decompressor: ask for
/// a libturbojpeg handle, then for the header.
pub fn read_header() -> (next: Next<HeaderTask, Result<DecompressHeader, Error>>)
    ensures
        next matches Next::Call(task, call) && call == Call::Init && task.stage()
            == HeaderTaskStage::Init,
{
    Next::Call(HeaderTask { stage: HeaderTaskStage::Init }, Call::Init)
}

/// Where decompressing into a newly allocated image stands.
#[derive(Debug)]
pub enum ImageTaskStage {
    /// Waiting for the outcome of `Call::Init`.
    Init,
    /// Waiting for the outcome of `Call::ReadHeader`.
    Header,
    /// Decompressing into the allocated image.
    Decompressing(DecompressJob),
}

/// Decompressing a JPEG image into a newly allocated image with packed pixels.
#[derive(Debug)]
pub struct ImageTask {
    format: PixelFormat,
    stage: ImageTaskStage,
}

/// Length of the pixel data that a decompression job writes into.
pub open spec fn decompress_job_len(job: DecompressJob) -> int {
    match job.stage() {
        DecompressStage::CheckHeader(pixels) => pixels.len() as int,
        DecompressStage::ReadHeader(pixels) => pixels.len() as int,
        DecompressStage::Pixels { len, .. } => len as int,
    }
}

/// `image` is a zeroed image of `header`'s size in `format`, with rows packed without
/// padding.
pub open spec fn is_fresh_image(image: Image, header: DecompressHeader, format: PixelFormat) -> bool {
    &&& image.width == header.width
    &&& image.height == header.height
    &&& image.format == format
    &&& image.pitch == header.width * spec_pixel_size(format)
    &&& image.pixels.len() == image.height * image.pitch
    &&& forall|i: int| 0 <= i < image.pixels.len() ==> image.pixels@[i] == 0u8
}

/// After the header, decompressing into a new image runs the job that a new decompressor
/// (`Decompressor::new`, without scaling) starts with `Decompressor::decompress` on a zeroed
/// image of the header's size with packed rows (see `ImageTask::resume`): any job so
/// started on that image is the task's job, and each reply takes both to the same step.
pub proof fn lemma_runs_fresh_decompression(
    job: DecompressJob,
    fresh: DecompressJob,
    image: Image,
    reply: Reply,
)
    requires
        job.started_on(image, ScalingFactor::One),
        fresh.started_on(image, ScalingFactor::One),
    ensures
        job == fresh,
        forall|next| job.steps_to(reply, next) == fresh.steps_to(reply, next),
{
    job.lemma_started_on_unique(fresh, image, ScalingFactor::One);
}

impl ImageTask {
    /// `next`, a step of the task, is the step `inner` of the decompression job that it
    /// runs: the same call, or the job's image or error.
    pub open spec fn lifts(
        self,
        inner: Next<DecompressJob, (Image, Result<(), Error>)>,
        next: Next<ImageTask, Result<Image, Error>>,
    ) -> bool {
        match inner {
            Next::Call(job, c) => next matches Next::Call(task, call) && call == c && task.stage()
                == ImageTaskStage::Decompressing(job) && task.format() == self.format(),
            Next::Done((image, Ok(()))) => next == Next::<ImageTask, Result<Image, Error>>::Done(
                Ok(image),
            ),
            Next::Done((_, Err(e))) => next == Next::<ImageTask, Result<Image, Error>>::Done(
                Err(e),
            ),
            Next::Abort(fault) => next == Next::<ImageTask, Result<Image, Error>>::Abort(fault),
        }
    }

    #[verifier::type_invariant]
    spec fn inv(self) -> bool {
        match self.stage {
            ImageTaskStage::Decompressing(job) => {
                &&& job.format() == self.format
                &&& job.pitch() == job.width() * spec_pixel_size(self.format)
                &&& decompress_job_len(job) == job.height() * job.pitch()
            },
            _ => true,
        }
    }

    /// Where the task stands.
    pub closed spec fn stage(self) -> ImageTaskStage {
        self.stage
    }

    /// Pixel format of the image to allocate.
    pub closed spec fn format(self) -> PixelFormat {
        self.format
    }

    /// Goes on with the outcome of the call that the task asked for.
    pub fn resume(self, reply: Reply) -> (next: Next<ImageTask, Result<Image, Error>>)
        ensures
            match self.stage() {
                ImageTaskStage::Init => match reply {
                    Reply::Init(false) => next == Next::<ImageTask, Result<Image, Error>>::Done(
                        Err(Error::Null),
                    ),
                    Reply::Init(true) => next matches Next::Call(task, call) && call
                        == Call::ReadHeader && task.stage() == ImageTaskStage::Header
                        && task.format() == self.format(),
                    _ => next == Next::<ImageTask, Result<Image, Error>>::Abort(
                        Fault::UnexpectedReply,
                    ),
                },
                ImageTaskStage::Header => match reply {
                    Reply::Header(header) => match spec_header_from_reply(header) {
                        Err(e) => next == Next::<ImageTask, Result<Image, Error>>::Done(Err(e)),
                        Ok(header) => {
                            let pitch = header.width * spec_pixel_size(self.format());
                            let len = header.height * pitch;
                            if pitch > usize::MAX || len > usize::MAX {
                                next == Next::<ImageTask, Result<Image, Error>>::Abort(
                                    Fault::SizeOverflow,
                                )
                            } else if pitch > i32::MAX {
                                next == Next::<ImageTask, Result<Image, Error>>::Done(
                                    Err(Error::IntegerOverflow("pitch")),
                                )
                            } else {
                                &&& next matches Next::Call(task, call)
                                &&& call == Call::CheckHeader
                                &&& task.format() == self.format()
                                &&& task.stage() matches ImageTaskStage::Decompressing(job)
                                &&& job.stage() matches DecompressStage::CheckHeader(pixels)
                                &&& is_fresh_image(job.output_with(pixels), header, self.format())
                                &&& job.started_on(job.output_with(pixels), ScalingFactor::One)
                            }
                        },
                    },
                    _ => next == Next::<ImageTask, Result<Image, Error>>::Abort(
                        Fault::UnexpectedReply,
                    ),
                },
                ImageTaskStage::Decompressing(job) => exists|inner| #[trigger]
                    job.steps_to(reply, inner) && self.lifts(inner, next),
            },
            // The image that comes out has the requested format, rows packed without padding,
            // and exactly the pixel data that its rows take.
            next matches Next::Done(Ok(image)) ==> {
                &&& self.stage() matches ImageTaskStage::Decompressing(job)
                &&& image.width == job.width()
                &&& image.height == job.height()
                &&& image.format == self.format()
                &&& image.pitch == image.width * spec_pixel_size(image.format)
                &&& image.pixels.len() == image.height * image.pitch
                &&& image.fits()
            },
    {
        proof {
            use_type_invariant(&self);
        }
        let ImageTask { format, stage } = self;
        match stage {
            ImageTaskStage::Init => match reply {
                Reply::Init(created) => {
                    if !created {
                        return Next::Done(Err(Error::Null));
                    }
                    Next::Call(ImageTask { format, stage: ImageTaskStage::Header }, Call::ReadHeader)
                },
                _ => Next::Abort(Fault::UnexpectedReply),
            },
            ImageTaskStage::Header => match ReadHeaderJob.resume(reply) {
                Next::Call(_, _) => Next::Abort(Fault::UnexpectedReply),
                Next::Abort(fault) => Next::Abort(fault),
                Next::Done(Err(e)) => Next::Done(Err(e)),
                Next::Done(Ok(header)) => {
                    let size = format.size();
                    let pitch = match header.width.checked_mul(size) {
                        Some(pitch) => pitch,
                        None => return Next::Abort(Fault::SizeOverflow),
                    };
                    let len = match header.height.checked_mul(pitch) {
                        Some(len) => len,
                        None => return Next::Abort(Fault::SizeOverflow),
                    };
                    let image = Image {
                        pixels: vec![0u8; len],
                        width: header.width,
                        pitch,
                        height: header.height,
                        format,
                    };
                    proof {
                        lemma_packed_image_fits(image);
                    }
                    let decompressor = Decompressor::new();
                    match decompressor.decompress(image) {
                        Next::Call(job, call) => Next::Call(
                            ImageTask { format, stage: ImageTaskStage::Decompressing(job) },
                            call,
                        ),
                        Next::Done((image, Ok(()))) => Next::Done(Ok(image)),
                        Next::Done((_, Err(e))) => Next::Done(Err(e)),
                        Next::Abort(fault) => Next::Abort(fault),
                    }
                },
            },
            ImageTaskStage::Decompressing(job) => match job.resume(reply) {
                Next::Call(job, call) => Next::Call(
                    ImageTask { format, stage: ImageTaskStage::Decompressing(job) },
                    call,
                ),
                Next::Done((image, Ok(()))) => {
                    proof {
                        lemma_packed_image_fits(image);
                    }
                    Next::Done(Ok(image))
                },
                Next::Done((_, Err(e))) => Next::Done(Err(e)),
                Next::Abort(fault) => Next::Abort(fault),
            },
        }
    }
}

/// An image whose rows are packed without padding, with exactly the pixel data that its
/// rows take, fits in its pixel data.
pub proof fn lemma_packed_image_fits(image: Image)
    requires
        image.pitch == image.width * spec_pixel_size(image.format),
        image.pixels.len() == image.height * image.pitch,
    ensures
        image.fits(),
{
    assert(image.fits()) by (nonlinear_arith)
        requires
            image.pitch == image.width * spec_pixel_size(image.format),
            image.pixels.len() == image.height * image.pitch,
    {
        if image.height > 0 {
            assert(image.pitch * (image.height - 1) + image.pitch == image.pitch * image.height);
        }
    }
}

/// Decompress a JPEG image into a newly allocated image with the given pixel `format`:
/// ask for a libturbojpeg handle, read the header, allocate an image of the header's size
/// whose rows are packed, and decompress into it.
pub fn decompress(format: PixelFormat) -> (next: Next<ImageTask, Result<Image, Error>>)
    ensures
        next matches Next::Call(task, call) && call == Call::Init && task.stage()
            == ImageTaskStage::Init && task.format() == format,
{
    Next::Call(ImageTask { format, stage: ImageTaskStage::Init }, Call::Init)
}

/// Where decompressing into a newly allocated YUV image stands.
#[derive(Debug)]
pub enum YuvTaskStage {
    /// Waiting for the outcome of `Call::Init`.
    Init,
    /// Waiting for the outcome of `Call::ReadHeader`.
    Header,
    /// Waiting for the size of the YUV image for this header (`Call::YuvBufSize`).
    Size(DecompressHeader),
    /// Decompressing into the allocated image, whose pixel data is `len` bytes long.
    Decompressing { job: YuvJob, len: usize },
}

/// Decompressing a JPEG image into a newly allocated YUV image.
#[derive(Debug)]
pub struct YuvTask {
    stage: YuvTaskStage,
}

/// Row alignment of the YUV images that `decompress_to_yuv` allocates.
pub const YUV_ALIGN: usize = 4;

/// Length of the pixel data that a YUV decompression job writes into.
pub open spec fn yuv_job_len(job: YuvJob) -> int {
    match job.stage() {
        YuvStage::CheckSize(pixels) => pixels.len() as int,
        YuvStage::ReadHeader(pixels) => pixels.len() as int,
        YuvStage::PlaneSize { pixels, .. } => pixels.len() as int,
        YuvStage::Pixels { len, .. } => len as int,
    }
}

/// The YUV row alignment that `decompress_to_yuv` uses is a power of two.
proof fn lemma_yuv_align_power_of_two()
    ensures
        is_power_of_two(YUV_ALIGN as int),
{
    assert(is_power_of_two(1));
    assert(is_power_of_two(2));
    assert(is_power_of_two(4));
}

/// `image` is a zeroed YUV image of `header`'s size and subsampling, aligned to
/// `YUV_ALIGN`, whose pixel data is `len` bytes long.
pub open spec fn is_fresh_yuv_image(image: YuvImage, header: DecompressHeader, len: int) -> bool {
    &&& image.width == header.width
    &&& image.height == header.height
    &&& image.subsamp == header.subsamp
    &&& image.align == YUV_ALIGN
    &&& image.pixels.len() == len
    &&& forall|i: int| 0 <= i < len ==> image.pixels@[i] == 0u8
}

/// After the size, decompressing into a new YUV image runs the job that a new decompressor
/// (`Decompressor::new`, without scaling) starts with `Decompressor::decompress_to_yuv` on a
/// zeroed image of the header's size and subsampling, aligned to `YUV_ALIGN`, of the size
/// that libturbojpeg reported (see `YuvTask::resume`): any job so started on that image is
/// the task's job, and each reply takes both to the same step.
pub proof fn lemma_runs_fresh_yuv_decompression(
    job: YuvJob,
    fresh: YuvJob,
    image: YuvImage,
    reply: Reply,
)
    requires
        job.started_on(image, ScalingFactor::One),
        fresh.started_on(image, ScalingFactor::One),
    ensures
        job == fresh,
        forall|next| job.steps_to(reply, next) == fresh.steps_to(reply, next),
{
    job.lemma_started_on_unique(fresh, image, ScalingFactor::One);
}

impl YuvTask {
    /// `next`, a step of the task, is the step `inner` of the decompression job that it
    /// runs into `len` bytes of pixel data: the same call, or the job's image or error.
    pub open spec fn lifts(
        self,
        inner: Next<YuvJob, (YuvImage, Result<(), Error>)>,
        len: usize,
        next: Next<YuvTask, Result<YuvImage, Error>>,
    ) -> bool {
        match inner {
            Next::Call(job, c) => next matches Next::Call(task, call) && call == c && task.stage()
                == (YuvTaskStage::Decompressing { job, len }),
            Next::Done((image, Ok(()))) => next == Next::<YuvTask, Result<YuvImage, Error>>::Done(
                Ok(image),
            ),
            Next::Done((_, Err(e))) => next == Next::<YuvTask, Result<YuvImage, Error>>::Done(
                Err(e),
            ),
            Next::Abort(fault) => next == Next::<YuvTask, Result<YuvImage, Error>>::Abort(fault),
        }
    }

    #[verifier::type_invariant]
    spec fn inv(self) -> bool {
        match self.stage {
            YuvTaskStage::Size(header) => header.width <= i32::MAX && header.height <= i32::MAX,
            YuvTaskStage::Decompressing { job, len } => {
                &&& job.align() == YUV_ALIGN
                &&& yuv_job_len(job) == len
            },
            _ => true,
        }
    }

    /// Where the task stands.
    pub closed spec fn stage(self) -> YuvTaskStage {
        self.stage
    }

    /// Allocates the YUV image of `len` bytes for `header` and starts decompressing into it.
    fn start_decompressing(header: DecompressHeader, len: usize) -> (next: Next<
        YuvTask,
        Result<YuvImage, Error>,
    >)
        requires
            header.width <= i32::MAX,
            header.height <= i32::MAX,
        ensures
            ({
                &&& next matches Next::Call(task, call)
                &&& call == (Call::YuvBufSize {
                    width: header.width as i32,
                    align: YUV_ALIGN as i32,
                    height: header.height as i32,
                    subsamp: spec_subsamp_code(header.subsamp),
                })
                &&& task.stage() matches YuvTaskStage::Decompressing { job, len: l }
                &&& l == len
                &&& job.stage() matches YuvStage::CheckSize(pixels)
                &&& is_fresh_yuv_image(job.output_with(pixels), header, len as int)
                &&& job.started_on(job.output_with(pixels), ScalingFactor::One)
            }),
    {
        let image = YuvImage {
            pixels: vec![0u8; len],
            width: header.width,
            align: YUV_ALIGN,
            height: header.height,
            subsamp: header.subsamp,
        };
        proof {
            lemma_yuv_align_power_of_two();
        }
        let decompressor = Decompressor::new();
        match decompressor.decompress_to_yuv(image) {
            Next::Call(job, call) => Next::Call(
                YuvTask { stage: YuvTaskStage::Decompressing { job, len } },
                call,
            ),
            Next::Done((image, Ok(()))) => Next::Done(Ok(image)),
            Next::Done((_, Err(e))) => Next::Done(Err(e)),
            Next::Abort(fault) => Next::Abort(fault),
        }
    }

    /// Goes on with the outcome of the call that the task asked for.
    pub fn resume(self, reply: Reply) -> (next: Next<YuvTask, Result<YuvImage, Error>>)
        ensures
            match self.stage() {
                YuvTaskStage::Init => match reply {
                    Reply::Init(false) => next == Next::<YuvTask, Result<YuvImage, Error>>::Done(
                        Err(Error::Null),
                    ),
                    Reply::Init(true) => next matches Next::Call(task, call) && call
                        == Call::ReadHeader && task.stage() == YuvTaskStage::Header,
                    _ => next == Next::<YuvTask, Result<YuvImage, Error>>::Abort(
                        Fault::UnexpectedReply,
                    ),
                },
                YuvTaskStage::Header => match reply {
                    Reply::Header(header) => match spec_header_from_reply(header) {
                        Err(e) => next == Next::<YuvTask, Result<YuvImage, Error>>::Done(Err(e)),
                        Ok(header) => match spec_yuv_pixels_len_call(
                            header.width,
                            YUV_ALIGN,
                            header.height,
                            header.subsamp,
                        ) {
                            Ok(c) => next matches Next::Call(task, call) && call == c
                                && task.stage() == YuvTaskStage::Size(header),
                            Err(e) => next == Next::<YuvTask, Result<YuvImage, Error>>::Done(
                                Err(e),
                            ),
                        },
                    },
                    _ => next == Next::<YuvTask, Result<YuvImage, Error>>::Abort(
                        Fault::UnexpectedReply,
                    ),
                },
                YuvTaskStage::Size(header) => match reply {
                    Reply::Size(size) => match spec_yuv_size(size) {
                        Err(e) => next == Next::<YuvTask, Result<YuvImage, Error>>::Done(Err(e)),
                        Ok(len) => {
                            &&& next matches Next::Call(task, call)
                            &&& call == (Call::YuvBufSize {
                                width: header.width as i32,
                                align: YUV_ALIGN as i32,
                                height: header.height as i32,
                                subsamp: spec_subsamp_code(header.subsamp),
                            })
                            &&& task.stage() matches YuvTaskStage::Decompressing { job, len: l }
                            &&& l == len
                            &&& job.stage() matches YuvStage::CheckSize(pixels)
                            &&& is_fresh_yuv_image(job.output_with(pixels), header, len as int)
                            &&& job.started_on(job.output_with(pixels), ScalingFactor::One)
                        },
                    },
                    _ => next == Next::<YuvTask, Result<YuvImage, Error>>::Abort(
                        Fault::UnexpectedReply,
                    ),
                },
                YuvTaskStage::Decompressing { job, len } => exists|inner| #[trigger]
                    job.steps_to(reply, inner) && self.lifts(inner, len, next),
            },
            // The image that comes out has the alignment that was asked for, and exactly
            // the pixel data that was allocated for it: the size that libturbojpeg reported.
            next matches Next::Done(Ok(image)) ==> {
                &&& image.align == YUV_ALIGN
                &&& self.stage() matches YuvTaskStage::Decompressing { job, len }
                &&& image.pixels.len() == len
                &&& image.width == job.width()
                &&& image.height == job.height()
                &&& image.subsamp == job.subsamp()
            },
    {
        proof {
            use_type_invariant(&self);
        }
        match self.stage {
            YuvTaskStage::Init => match reply {
                Reply::Init(created) => {
                    if !created {
                        return Next::Done(Err(Error::Null));
                    }
                    Next::Call(YuvTask { stage: YuvTaskStage::Header }, Call::ReadHeader)
                },
                _ => Next::Abort(Fault::UnexpectedReply),
            },
            YuvTaskStage::Header => match ReadHeaderJob.resume(reply) {
                Next::Call(_, _) => Next::Abort(Fault::UnexpectedReply),
                Next::Abort(fault) => Next::Abort(fault),
                Next::Done(Err(e)) => Next::Done(Err(e)),
                Next::Done(Ok(header)) => match yuv_pixels_len(
                    header.width,
                    YUV_ALIGN,
                    header.height,
                    header.subsamp,
                ) {
                    Next::Call(_, call) => Next::Call(
                        YuvTask { stage: YuvTaskStage::Size(header) },
                        call,
                    ),
                    Next::Done(Err(e)) => Next::Done(Err(e)),
                    Next::Done(Ok(len)) => Self::start_decompressing(header, len),
                    Next::Abort(fault) => Next::Abort(fault),
                },
            },
            YuvTaskStage::Size(header) => match YuvSizeJob.resume(reply) {
                Next::Call(_, _) => Next::Abort(Fault::UnexpectedReply),
                Next::Abort(fault) => Next::Abort(fault),
                Next::Done(Err(e)) => Next::Done(Err(e)),
                Next::Done(Ok(len)) => Self::start_decompressing(header, len),
            },
            YuvTaskStage::Decompressing { job, len } => match job.resume(reply) {
                Next::Call(job, call) => Next::Call(
                    YuvTask { stage: YuvTaskStage::Decompressing { job, len } },
                    call,
                ),
                Next::Done((image, Ok(()))) => Next::Done(Ok(image)),
                Next::Done((_, Err(e))) => Next::Done(Err(e)),
                Next::Abort(fault) => Next::Abort(fault),
            },
        }
    }
}

/// Decompress a JPEG image into a newly allocated YUV image with a row alignment of 4: ask
/// for a libturbojpeg handle, read the header, ask libturbojpeg for the size of the YUV
/// image, allocate it, and decompress into it.
pub fn decompress_to_yuv() -> (next: Next<YuvTask, Result<YuvImage, Error>>)
    ensures
        next matches Next::Call(task, call) && call == Call::Init && task.stage()
            == YuvTaskStage::Init,
{
    Next::Call(YuvTask { stage: YuvTaskStage::Init }, Call::Init)
}

} // verus!
