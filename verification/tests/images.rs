use turbojpeg::common::{from_c_int, status_result, to_c_int};
use turbojpeg::image::power_of_two;
use turbojpeg::{
    Call, Decompressor, Error, Fault, HeaderParams, Image, Next, PixelFormat, Reply,
    ScalingFactor, Subsamp, Colorspace, YuvImage, decompress, decompress_to_yuv, yuv_pixels_len,
};

fn parrots() -> HeaderParams {
    HeaderParams { width: 384, height: 256, subsamp: 0, colorspace: 1, lossless: 0 }
}

fn rgba_image(width: usize, height: usize) -> Image {
    Image { pixels: vec![0; 4 * width * height], width, pitch: 4 * width, height, format: PixelFormat::RGBA }
}

#[test]
fn pixel_sizes_and_codes() {
    assert_eq!(PixelFormat::RGB.size(), 3);
    assert_eq!(PixelFormat::BGR.size(), 3);
    assert_eq!(PixelFormat::GRAY.size(), 1);
    assert_eq!(PixelFormat::RGBA.size(), 4);
    assert_eq!(PixelFormat::CMYK.size(), 4);
    assert_eq!(PixelFormat::RGB.to_int(), 0);
    assert_eq!(PixelFormat::GRAY.to_int(), 6);
    assert_eq!(PixelFormat::CMYK.to_int(), 11);
}

#[test]
fn codes_read_back() {
    for s in [Subsamp::Sub1x1, Subsamp::Sub2x1, Subsamp::Sub1x1, Subsamp::Gray, Subsamp::Sub1x2,
              Subsamp::Sub4x1, Subsamp::Sub1x4, Subsamp::Unknown] {
        assert_eq!(Subsamp::from_int(s.to_int()), Ok(s));
    }
    for c in [Colorspace::RGB, Colorspace::YCbCr, Colorspace::Gray, Colorspace::CMYK, Colorspace::YCCK] {
        assert_eq!(Colorspace::from_int(c.to_int()), Ok(c));
    }
    assert_eq!(Subsamp::from_int(7), Err(Error::BadSubsamp(7)));
    assert_eq!(Colorspace::from_int(-1), Err(Error::BadColorspace(-1)));
}

#[test]
fn integer_conversions() {
    assert_eq!(to_c_int(5, "width"), Ok(5));
    assert_eq!(to_c_int(0x7fff_ffff, "width"), Ok(i32::MAX));
    assert_eq!(to_c_int(0x8000_0000, "pitch"), Err(Error::IntegerOverflow("pitch")));
    assert_eq!(from_c_int(7, "height"), Ok(7));
    assert_eq!(from_c_int(-7, "height"), Err(Error::IntegerOverflow("height")));
    assert_eq!(status_result(Ok(())), Ok(()));
    assert_eq!(status_result(Err("bad".to_string())), Err(Error::TurboJpegError("bad".to_string())));
}

#[test]
fn image_validity() {
    assert!(rgba_image(384, 256).is_valid());
    let mut image = rgba_image(4, 3);
    image.pitch = 15;
    assert!(!image.is_valid());
    let mut image = rgba_image(4, 3);
    image.pixels.pop();
    assert!(!image.is_valid());
    let mut image = rgba_image(4, 3);
    image.pitch = 20;
    assert!(!image.is_valid());
    image.pixels = vec![0; 20 * 2 + 16];
    assert!(image.is_valid());
    let empty = Image { pixels: vec![], width: 5, pitch: 20, height: 0, format: PixelFormat::RGBA };
    assert!(empty.is_valid());
    let huge = Image { pixels: vec![], width: usize::MAX, pitch: usize::MAX, height: 0, format: PixelFormat::RGBA };
    assert!(!huge.is_valid());
}

#[test]
fn powers_of_two() {
    assert!(power_of_two(1));
    assert!(power_of_two(4));
    assert!(power_of_two(1 << 20));
    assert!(!power_of_two(0));
    assert!(!power_of_two(6));
    assert!(!power_of_two(12));
}

#[test]
fn yuv_pixels_len_asks_libturbojpeg() {
    let job = match yuv_pixels_len(384, 4, 256, Subsamp::Sub1x1) {
        Next::Call(job, Call::YuvBufSize { width: 384, align: 4, height: 256, subsamp: 0 }) => job,
        other => panic!("unexpected {:?}", other),
    };
    match job.resume(Reply::Size(294912)) {
        Next::Done(Ok(len)) => assert_eq!(len, 294912),
        other => panic!("unexpected {:?}", other),
    }
}

#[test]
fn yuv_pixels_len_overflows() {
    match yuv_pixels_len(1 << 31, 4, 256, Subsamp::Sub1x1) {
        Next::Done(Err(Error::IntegerOverflow("width"))) => {}
        other => panic!("unexpected {:?}", other),
    }
    match yuv_pixels_len(384, 1 << 31, 256, Subsamp::Sub1x1) {
        Next::Done(Err(Error::IntegerOverflow("align"))) => {}
        other => panic!("unexpected {:?}", other),
    }
    match yuv_pixels_len(384, 4, 1 << 31, Subsamp::Sub1x1) {
        Next::Done(Err(Error::IntegerOverflow("height"))) => {}
        other => panic!("unexpected {:?}", other),
    }
}

#[test]
fn decompress_into_rgba_image() {
    let decompressor = Decompressor::new();
    let job = match decompressor.decompress(rgba_image(384, 256)) {
        Next::Call(job, Call::CheckHeader) => job,
        other => panic!("unexpected {:?}", other),
    };
    let job = match job.resume(Reply::Status(Ok(()))) {
        Next::Call(job, Call::ReadHeader) => job,
        other => panic!("unexpected {:?}", other),
    };
    let (job, mut pixels) = match job.resume(Reply::Header(Ok(parrots()))) {
        Next::Call(job, Call::Decompress { pixels, pitch, format }) => {
            assert_eq!(pitch, 4 * 384);
            assert_eq!(format, PixelFormat::RGBA.to_int());
            assert_eq!(pixels.len(), 4 * 384 * 256);
            (job, pixels)
        }
        other => panic!("unexpected {:?}", other),
    };
    pixels[0..4].copy_from_slice(&[122, 118, 89, 255]);
    match job.resume(Reply::Written(pixels, Ok(()))) {
        Next::Done((image, Ok(()))) => {
            assert_eq!(&image.pixels[0..4], &[122, 118, 89, 255]);
            assert_eq!((image.width, image.pitch, image.height), (384, 4 * 384, 256));
        }
        other => panic!("unexpected {:?}", other),
    }
}

#[test]
fn decompress_into_too_small_image() {
    let decompressor = Decompressor::new();
    let job = match decompressor.decompress(rgba_image(383, 256)) {
        Next::Call(job, Call::CheckHeader) => job,
        other => panic!("unexpected {:?}", other),
    };
    let job = match job.resume(Reply::Status(Ok(()))) {
        Next::Call(job, Call::ReadHeader) => job,
        other => panic!("unexpected {:?}", other),
    };
    match job.resume(Reply::Header(Ok(parrots()))) {
        Next::Done((image, Err(Error::OutputTooSmall(384, 256)))) => assert_eq!(image, rgba_image(383, 256)),
        other => panic!("unexpected {:?}", other),
    }
}

#[test]
fn decompress_with_scaling_into_half_size_image() {
    let mut decompressor = Decompressor::new();
    match decompressor.set_scaling_factor(ScalingFactor::OneHalf) {
        Next::Call(job, _) => match job.resume(Reply::Status(Ok(()))) {
            Next::Done(Ok(())) => {}
            other => panic!("unexpected {:?}", other),
        },
        other => panic!("unexpected {:?}", other),
    }
    let job = match decompressor.decompress(rgba_image(192, 128)) {
        Next::Call(job, Call::CheckHeader) => job,
        other => panic!("unexpected {:?}", other),
    };
    let job = match job.resume(Reply::Status(Ok(()))) {
        Next::Call(job, Call::ReadHeader) => job,
        other => panic!("unexpected {:?}", other),
    };
    let job = match job.resume(Reply::Header(Ok(parrots()))) {
        Next::Call(job, Call::Decompress { pixels, .. }) => {
            assert_eq!(pixels.len(), 4 * 192 * 128);
            match job.resume(Reply::Written(pixels, Ok(()))) {
                Next::Done((image, Ok(()))) => image,
                other => panic!("unexpected {:?}", other),
            }
        }
        other => panic!("unexpected {:?}", other),
    };
    assert_eq!((job.width, job.height), (192, 128));
    // a half-size image is too small for the whole image without scaling
    let decompressor = Decompressor::new();
    let job = match decompressor.decompress(rgba_image(192, 128)) {
        Next::Call(job, _) => job,
        other => panic!("unexpected {:?}", other),
    };
    let job = match job.resume(Reply::Status(Ok(()))) {
        Next::Call(job, _) => job,
        other => panic!("unexpected {:?}", other),
    };
    match job.resume(Reply::Header(Ok(parrots()))) {
        Next::Done((_, Err(Error::OutputTooSmall(384, 256)))) => {}
        other => panic!("unexpected {:?}", other),
    }
}

#[test]
fn decompress_rejects_dimensions_beyond_c_int() {
    let decompressor = Decompressor::new();
    let image = Image { pixels: vec![], width: 1 << 31, pitch: 1 << 33, height: 0, format: PixelFormat::GRAY };
    match decompressor.decompress(image) {
        Next::Done((_, Err(Error::IntegerOverflow("width")))) => {}
        other => panic!("unexpected {:?}", other),
    }
    let image = Image { pixels: vec![], width: 4, pitch: 1 << 31, height: 0, format: PixelFormat::GRAY };
    match decompressor.decompress(image) {
        Next::Done((_, Err(Error::IntegerOverflow("pitch")))) => {}
        other => panic!("unexpected {:?}", other),
    }
    let image = Image { pixels: vec![], width: 4, pitch: 4, height: 0, format: PixelFormat::GRAY };
    let job = match decompressor.decompress(image) {
        Next::Call(job, Call::CheckHeader) => job,
        other => panic!("unexpected {:?}", other),
    };
    match job.resume(Reply::Status(Err("Premature end of JPEG file".to_string()))) {
        Next::Done((_, Err(Error::TurboJpegError(message)))) => assert_eq!(message, "Premature end of JPEG file"),
        other => panic!("unexpected {:?}", other),
    }
}

#[test]
fn decompress_aborts_when_pixels_come_back_with_another_length() {
    let decompressor = Decompressor::new();
    let job = match decompressor.decompress(rgba_image(384, 256)) {
        Next::Call(job, _) => job,
        other => panic!("unexpected {:?}", other),
    };
    let job = match job.resume(Reply::Status(Ok(()))) {
        Next::Call(job, _) => job,
        other => panic!("unexpected {:?}", other),
    };
    let job = match job.resume(Reply::Header(Ok(parrots()))) {
        Next::Call(job, Call::Decompress { .. }) => job,
        other => panic!("unexpected {:?}", other),
    };
    match job.resume(Reply::Written(vec![0; 3], Ok(()))) {
        Next::Abort(Fault::UnexpectedReply) => {}
        other => panic!("unexpected {:?}", other),
    }
}

#[test]
fn decompress_new_rgb_image() {
    let task = match decompress(PixelFormat::RGB) {
        Next::Call(task, Call::Init) => task,
        other => panic!("unexpected {:?}", other),
    };
    let task = match task.resume(Reply::Init(true)) {
        Next::Call(task, Call::ReadHeader) => task,
        other => panic!("unexpected {:?}", other),
    };
    let task = match task.resume(Reply::Header(Ok(parrots()))) {
        Next::Call(task, Call::CheckHeader) => task,
        other => panic!("unexpected {:?}", other),
    };
    let task = match task.resume(Reply::Status(Ok(()))) {
        Next::Call(task, Call::ReadHeader) => task,
        other => panic!("unexpected {:?}", other),
    };
    let (task, pixels) = match task.resume(Reply::Header(Ok(parrots()))) {
        Next::Call(task, Call::Decompress { pixels, pitch, format }) => {
            assert_eq!(pitch, 384 * 3);
            assert_eq!(format, 0);
            (task, pixels)
        }
        other => panic!("unexpected {:?}", other),
    };
    match task.resume(Reply::Written(pixels, Ok(()))) {
        Next::Done(Ok(image)) => {
            assert_eq!(image.format, PixelFormat::RGB);
            assert_eq!((image.width, image.height), (384, 256));
            assert_eq!(image.pixels.len(), 384 * 256 * 3);
            assert_eq!(image.pitch, 384 * 3);
        }
        other => panic!("unexpected {:?}", other),
    }
}

#[test]
fn decompress_new_image_with_a_pitch_beyond_c_int() {
    let task = match decompress(PixelFormat::RGBA) {
        Next::Call(task, Call::Init) => task,
        other => panic!("unexpected {:?}", other),
    };
    let task = match task.resume(Reply::Init(true)) {
        Next::Call(task, _) => task,
        other => panic!("unexpected {:?}", other),
    };
    let wide = HeaderParams { width: 1 << 30, height: 0, subsamp: 3, colorspace: 2, lossless: 0 };
    match task.resume(Reply::Header(Ok(wide))) {
        Next::Done(Err(Error::IntegerOverflow("pitch"))) => {}
        other => panic!("unexpected {:?}", other),
    }
}

#[test]
fn decompress_new_image_fails_when_libturbojpeg_fails() {
    let task = match decompress(PixelFormat::GRAY) {
        Next::Call(task, _) => task,
        other => panic!("unexpected {:?}", other),
    };
    match task.resume(Reply::Init(false)) {
        Next::Done(Err(Error::Null)) => {}
        other => panic!("unexpected {:?}", other),
    }
}

fn yuv_steps_to_header(task: turbojpeg::oneshot::YuvTask) -> turbojpeg::oneshot::YuvTask {
    let task = match task.resume(Reply::Init(true)) {
        Next::Call(task, Call::ReadHeader) => task,
        other => panic!("unexpected {:?}", other),
    };
    match task.resume(Reply::Header(Ok(parrots()))) {
        Next::Call(task, Call::YuvBufSize { width: 384, align: 4, height: 256, subsamp: 0 }) => task,
        other => panic!("unexpected {:?}", other),
    }
}

#[test]
fn decompress_new_yuv_image() {
    let task = match decompress_to_yuv() {
        Next::Call(task, Call::Init) => task,
        other => panic!("unexpected {:?}", other),
    };
    let task = yuv_steps_to_header(task);
    let task = match task.resume(Reply::Size(294912)) {
        Next::Call(task, Call::YuvBufSize { width: 384, align: 4, height: 256, subsamp: 0 }) => task,
        other => panic!("unexpected {:?}", other),
    };
    let task = match task.resume(Reply::Size(294912)) {
        Next::Call(task, Call::ReadHeader) => task,
        other => panic!("unexpected {:?}", other),
    };
    let task = match task.resume(Reply::Header(Ok(parrots()))) {
        Next::Call(task, Call::YuvBufSize { width: 384, align: 4, height: 256, subsamp: 0 }) => task,
        other => panic!("unexpected {:?}", other),
    };
    let (task, pixels) = match task.resume(Reply::Size(294912)) {
        Next::Call(task, Call::DecompressToYuv { pixels, align: 4 }) => (task, pixels),
        other => panic!("unexpected {:?}", other),
    };
    match task.resume(Reply::Written(pixels, Ok(()))) {
        Next::Done(Ok(image)) => {
            assert_eq!((image.width, image.height), (384, 256));
            assert_eq!(image.pixels.len(), 294912);
            assert_eq!(image.align, 4);
            assert_eq!(image.subsamp, Subsamp::Sub1x1);
        }
        other => panic!("unexpected {:?}", other),
    }
}

#[test]
fn decompress_new_yuv_image_aborts_when_the_size_grows() {
    let task = match decompress_to_yuv() {
        Next::Call(task, _) => task,
        other => panic!("unexpected {:?}", other),
    };
    let task = yuv_steps_to_header(task);
    let task = match task.resume(Reply::Size(1000)) {
        Next::Call(task, Call::YuvBufSize { .. }) => task,
        other => panic!("unexpected {:?}", other),
    };
    match task.resume(Reply::Size(1001)) {
        Next::Abort(Fault::InvalidOutput) => {}
        other => panic!("unexpected {:?}", other),
    }
}

#[test]
fn decompress_to_yuv_into_given_image() {
    let decompressor = Decompressor::new();
    let image = YuvImage { pixels: vec![0; 300000], width: 384, align: 4, height: 256, subsamp: Subsamp::Sub1x1 };
    let job = match decompressor.decompress_to_yuv(image) {
        Next::Call(job, Call::YuvBufSize { width: 384, align: 4, height: 256, subsamp: 0 }) => job,
        other => panic!("unexpected {:?}", other),
    };
    let job = match job.resume(Reply::Size(294912)) {
        Next::Call(job, Call::ReadHeader) => job,
        other => panic!("unexpected {:?}", other),
    };
    let small = HeaderParams { width: 385, height: 256, subsamp: 0, colorspace: 1, lossless: 0 };
    match job.resume(Reply::Header(Ok(small))) {
        Next::Done((image, Err(Error::OutputTooSmall(385, 256)))) => assert_eq!(image.pixels.len(), 300000),
        other => panic!("unexpected {:?}", other),
    }
}

#[test]
fn decompress_to_yuv_aborts_on_too_small_output() {
    let decompressor = Decompressor::new();
    let image = YuvImage { pixels: vec![0; 100], width: 384, align: 4, height: 256, subsamp: Subsamp::Sub1x1 };
    let job = match decompressor.decompress_to_yuv(image) {
        Next::Call(job, Call::YuvBufSize { .. }) => job,
        other => panic!("unexpected {:?}", other),
    };
    match job.resume(Reply::Size(294912)) {
        Next::Abort(Fault::InvalidOutput) => {}
        other => panic!("unexpected {:?}", other),
    }
    let image = YuvImage { pixels: vec![0; 100], width: 1 << 31, align: 4, height: 256, subsamp: Subsamp::Gray };
    match decompressor.decompress_to_yuv(image) {
        Next::Abort(Fault::InvalidOutput) => {}
        other => panic!("unexpected {:?}", other),
    }
}

#[test]
fn decompress_new_image_reports_header_errors() {
    let task = match decompress(PixelFormat::RGB) {
        Next::Call(task, _) => task,
        other => panic!("unexpected {:?}", other),
    };
    let task = match task.resume(Reply::Init(true)) {
        Next::Call(task, Call::ReadHeader) => task,
        other => panic!("unexpected {:?}", other),
    };
    match task.resume(Reply::Header(Ok(HeaderParams { width: 10, height: 10, subsamp: 2, colorspace: 42, lossless: 0 }))) {
        Next::Done(Err(Error::BadColorspace(42))) => {}
        other => panic!("unexpected {:?}", other),
    }
}

#[test]
fn decompress_new_yuv_image_aborts_on_a_reply_to_another_call() {
    let task = match decompress_to_yuv() {
        Next::Call(task, _) => task,
        other => panic!("unexpected {:?}", other),
    };
    match task.resume(Reply::Size(10)) {
        Next::Abort(Fault::UnexpectedReply) => {}
        other => panic!("unexpected {:?}", other),
    }
}

fn through_header(image: Image, scaling: ScalingFactor, header: HeaderParams)
    -> Next<turbojpeg::output::DecompressJob, (Image, Result<(), Error>)>
{
    let mut decompressor = Decompressor::new();
    if let Next::Call(job, _) = decompressor.set_scaling_factor(scaling) {
        match job.resume(Reply::Status(Ok(()))) {
            Next::Done(Ok(())) => {}
            other => panic!("unexpected {:?}", other),
        }
    }
    let job = match decompressor.decompress(image) {
        Next::Call(job, Call::CheckHeader) => job,
        other => panic!("unexpected {:?}", other),
    };
    let job = match job.resume(Reply::Status(Ok(()))) {
        Next::Call(job, Call::ReadHeader) => job,
        other => panic!("unexpected {:?}", other),
    };
    job.resume(Reply::Header(Ok(header)))
}

#[test]
fn lossless_jpeg_is_not_scaled_so_the_output_must_hold_it_whole() {
    let lossless = HeaderParams { lossless: 1, ..parrots() };
    match through_header(rgba_image(192, 128), ScalingFactor::OneHalf, lossless) {
        Next::Done((_, Err(Error::OutputTooSmall(384, 256)))) => {}
        other => panic!("unexpected {:?}", other),
    }
    match through_header(rgba_image(384, 256), ScalingFactor::OneHalf, lossless) {
        Next::Call(_, Call::Decompress { pixels, .. }) => assert_eq!(pixels.len(), 4 * 384 * 256),
        other => panic!("unexpected {:?}", other),
    }
    // the same header without the lossless flag is scaled
    match through_header(rgba_image(192, 128), ScalingFactor::OneHalf, parrots()) {
        Next::Call(_, Call::Decompress { .. }) => {}
        other => panic!("unexpected {:?}", other),
    }
}

fn yuv_through_header(image: YuvImage, own_size: u64, header: HeaderParams)
    -> Next<turbojpeg::output::YuvJob, (YuvImage, Result<(), Error>)>
{
    let decompressor = Decompressor::new();
    let job = match decompressor.decompress_to_yuv(image) {
        Next::Call(job, Call::YuvBufSize { .. }) => job,
        other => panic!("unexpected {:?}", other),
    };
    let job = match job.resume(Reply::Size(own_size)) {
        Next::Call(job, Call::ReadHeader) => job,
        other => panic!("unexpected {:?}", other),
    };
    job.resume(Reply::Header(Ok(header)))
}

#[test]
fn decompress_to_yuv_checks_the_planes_of_the_jpeg_subsampling() {
    // a gray-sized output for a 4:4:4 JPEG: libturbojpeg would write three planes
    let image = YuvImage { pixels: vec![0; 98304], width: 384, align: 4, height: 256, subsamp: Subsamp::Gray };
    let job = match yuv_through_header(image, 98304, parrots()) {
        Next::Call(job, Call::YuvBufSize { width: 384, align: 4, height: 256, subsamp: 0 }) => job,
        other => panic!("unexpected {:?}", other),
    };
    match job.resume(Reply::Size(294912)) {
        Next::Done((image, Err(Error::OutputTooSmall(384, 256)))) => assert_eq!(image.pixels.len(), 98304),
        other => panic!("unexpected {:?}", other),
    }
}

#[test]
fn decompress_to_yuv_refuses_planes_that_libturbojpeg_cannot_size() {
    let image = YuvImage { pixels: vec![0; 294912], width: 384, align: 4, height: 256, subsamp: Subsamp::Sub1x1 };
    let unknown = HeaderParams { subsamp: -1, ..parrots() };
    let job = match yuv_through_header(image, 294912, unknown) {
        Next::Call(job, Call::YuvBufSize { subsamp: -1, .. }) => job,
        other => panic!("unexpected {:?}", other),
    };
    match job.resume(Reply::Size(0)) {
        Next::Done((_, Err(Error::BadSubsamp(-1)))) => {}
        other => panic!("unexpected {:?}", other),
    }
}

#[test]
fn decompress_to_yuv_into_given_image_succeeds() {
    let image = YuvImage { pixels: vec![0; 294912], width: 384, align: 4, height: 256, subsamp: Subsamp::Sub1x1 };
    let job = match yuv_through_header(image, 294912, parrots()) {
        Next::Call(job, Call::YuvBufSize { width: 384, align: 4, height: 256, subsamp: 0 }) => job,
        other => panic!("unexpected {:?}", other),
    };
    let (job, pixels) = match job.resume(Reply::Size(294912)) {
        Next::Call(job, Call::DecompressToYuv { pixels, align: 4 }) => (job, pixels),
        other => panic!("unexpected {:?}", other),
    };
    match job.resume(Reply::Written(pixels, Ok(()))) {
        Next::Done((image, Ok(()))) => assert_eq!(image.pixels.len(), 294912),
        other => panic!("unexpected {:?}", other),
    }
}

#[test]
fn decompress_to_yuv_lossless_is_not_scaled() {
    let mut decompressor = Decompressor::new();
    if let Next::Call(job, _) = decompressor.set_scaling_factor(ScalingFactor::OneHalf) {
        let _ = job.resume(Reply::Status(Ok(())));
    }
    let image = YuvImage { pixels: vec![0; 73728], width: 192, align: 4, height: 128, subsamp: Subsamp::Sub1x1 };
    let job = match decompressor.decompress_to_yuv(image) {
        Next::Call(job, Call::YuvBufSize { .. }) => job,
        other => panic!("unexpected {:?}", other),
    };
    let job = match job.resume(Reply::Size(73728)) {
        Next::Call(job, Call::ReadHeader) => job,
        other => panic!("unexpected {:?}", other),
    };
    match job.resume(Reply::Header(Ok(HeaderParams { lossless: 1, ..parrots() }))) {
        Next::Done((_, Err(Error::OutputTooSmall(384, 256)))) => {}
        other => panic!("unexpected {:?}", other),
    }
}

#[test]
fn new_image_equals_fresh_decompressor_into_zeroed_packed_image() {
    let fill = |pixels: &mut Vec<u8>| for (i, p) in pixels.iter_mut().enumerate() { *p = (i % 251) as u8 };
    // one-shot
    let task = match decompress(PixelFormat::RGB) { Next::Call(t, _) => t, o => panic!("{:?}", o) };
    let task = match task.resume(Reply::Init(true)) { Next::Call(t, _) => t, o => panic!("{:?}", o) };
    let task = match task.resume(Reply::Header(Ok(parrots()))) { Next::Call(t, _) => t, o => panic!("{:?}", o) };
    let task = match task.resume(Reply::Status(Ok(()))) { Next::Call(t, _) => t, o => panic!("{:?}", o) };
    let (task, mut pixels) = match task.resume(Reply::Header(Ok(parrots()))) {
        Next::Call(t, Call::Decompress { pixels, .. }) => (t, pixels),
        o => panic!("{:?}", o),
    };
    fill(&mut pixels);
    let one_shot = match task.resume(Reply::Written(pixels, Ok(()))) { Next::Done(Ok(i)) => i, o => panic!("{:?}", o) };
    // fresh decompressor into a zeroed, packed image
    let image = Image { pixels: vec![0; 384 * 256 * 3], width: 384, pitch: 384 * 3, height: 256, format: PixelFormat::RGB };
    let job = match Decompressor::new().decompress(image) { Next::Call(j, _) => j, o => panic!("{:?}", o) };
    let job = match job.resume(Reply::Status(Ok(()))) { Next::Call(j, _) => j, o => panic!("{:?}", o) };
    let (job, mut pixels) = match job.resume(Reply::Header(Ok(parrots()))) {
        Next::Call(j, Call::Decompress { pixels, .. }) => (j, pixels),
        o => panic!("{:?}", o),
    };
    fill(&mut pixels);
    let fresh = match job.resume(Reply::Written(pixels, Ok(()))) { Next::Done((i, Ok(()))) => i, o => panic!("{:?}", o) };
    assert_eq!(one_shot, fresh);
}
