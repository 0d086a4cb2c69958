use turbojpeg::decompress::header_from_params;
use turbojpeg::{
    Call, Colorspace, DecompressHeader, Decompressor, Error, Fault, HeaderParams, Next, Reply,
    ScalingFactor, Subsamp, read_header,
};

fn params(width: i32, height: i32, subsamp: i32, colorspace: i32) -> HeaderParams {
    HeaderParams { width, height, subsamp, colorspace, lossless: 0 }
}

fn parrots_header() -> DecompressHeader {
    header_from_params(params(384, 256, 0, 1)).unwrap()
}

#[test]
fn header_from_params_converts_codes() {
    let header = parrots_header();
    assert_eq!((header.width, header.height), (384, 256));
    assert_eq!(header.subsamp, Subsamp::Sub1x1);
    assert_eq!(header.colorspace, Colorspace::YCbCr);
}

#[test]
fn header_from_params_reports_each_error() {
    assert_eq!(header_from_params(params(-1, 256, 2, 1)), Err(Error::IntegerOverflow("width")));
    assert_eq!(header_from_params(params(384, -5, 2, 1)), Err(Error::IntegerOverflow("height")));
    assert_eq!(header_from_params(params(384, 256, 9, 1)), Err(Error::BadSubsamp(9)));
    assert_eq!(header_from_params(params(384, 256, 2, 7)), Err(Error::BadColorspace(7)));
    // the first failing conversion is reported
    assert_eq!(header_from_params(params(-1, -1, 9, 7)), Err(Error::IntegerOverflow("width")));
}

#[test]
fn unknown_subsampling_is_known_as_unknown() {
    let header = header_from_params(params(10, 10, -1, 2)).unwrap();
    assert_eq!(header.subsamp, Subsamp::Unknown);
    assert_eq!(header.colorspace, Colorspace::Gray);
}

#[test]
fn with_scale_one_half() {
    let header = parrots_header();
    let scaled = header.with_scale(ScalingFactor::OneHalf);
    assert_eq!((scaled.width, scaled.height), (192, 128));
    assert_eq!(scaled.subsamp, header.subsamp);
    assert_eq!(scaled.colorspace, header.colorspace);
}

#[test]
fn with_scale_rounds_up() {
    let header = header_from_params(params(385, 257, 0, 0)).unwrap();
    let scaled = header.with_scale(ScalingFactor::OneEighth);
    assert_eq!((scaled.width, scaled.height), (49, 33));
    let scaled = header.with_scale(ScalingFactor::OneQuarter);
    assert_eq!((scaled.width, scaled.height), (97, 65));
    let one = header_from_params(params(1, 1, 0, 0)).unwrap();
    let scaled = one.with_scale(ScalingFactor::OneEighth);
    assert_eq!((scaled.width, scaled.height), (1, 1));
    let zero = header_from_params(params(0, 0, 0, 0)).unwrap();
    let scaled = zero.with_scale(ScalingFactor::OneEighth);
    assert_eq!((scaled.width, scaled.height), (0, 0));
}

#[test]
fn with_scale_one_is_identity() {
    let header = parrots_header();
    assert_eq!(header.with_scale(ScalingFactor::One), header);
}

#[test]
fn with_scale_does_not_overflow_near_the_limit() {
    let mut header = parrots_header();
    header.width = usize::MAX;
    header.height = usize::MAX - 3;
    let scaled = header.with_scale(ScalingFactor::OneEighth);
    assert_eq!(scaled.width, usize::MAX / 8 + 1);
    assert_eq!(scaled.height, usize::MAX / 8 + 1);
}

#[test]
fn scaling_fractions() {
    assert_eq!((ScalingFactor::One.fraction().num, ScalingFactor::One.fraction().denom), (1, 1));
    assert_eq!(ScalingFactor::OneHalf.fraction().denom, 2);
    assert_eq!(ScalingFactor::OneQuarter.fraction().denom, 4);
    assert_eq!(ScalingFactor::OneEighth.fraction().denom, 8);
}

#[test]
fn read_header_with_new_decompressor() {
    let task = match read_header() {
        Next::Call(task, Call::Init) => task,
        other => panic!("unexpected {:?}", other),
    };
    let task = match task.resume(Reply::Init(true)) {
        Next::Call(task, Call::ReadHeader) => task,
        other => panic!("unexpected {:?}", other),
    };
    match task.resume(Reply::Header(Ok(params(384, 256, 0, 1)))) {
        Next::Done(Ok(header)) => assert_eq!((header.width, header.height), (384, 256)),
        other => panic!("unexpected {:?}", other),
    }
}

#[test]
fn read_header_without_handle_fails_with_null() {
    let task = match read_header() {
        Next::Call(task, Call::Init) => task,
        other => panic!("unexpected {:?}", other),
    };
    match task.resume(Reply::Init(false)) {
        Next::Done(Err(Error::Null)) => {}
        other => panic!("unexpected {:?}", other),
    }
}

#[test]
fn read_header_reports_the_libturbojpeg_message() {
    let decompressor = Decompressor::new();
    let job = match decompressor.read_header() {
        Next::Call(job, Call::ReadHeader) => job,
        other => panic!("unexpected {:?}", other),
    };
    match job.resume(Reply::Header(Err("Not a JPEG file".to_string()))) {
        Next::Done(Err(Error::TurboJpegError(message))) => assert_eq!(message, "Not a JPEG file"),
        other => panic!("unexpected {:?}", other),
    }
}

#[test]
fn read_header_aborts_on_a_reply_to_another_call() {
    let decompressor = Decompressor::new();
    let job = match decompressor.read_header() {
        Next::Call(job, Call::ReadHeader) => job,
        other => panic!("unexpected {:?}", other),
    };
    match job.resume(Reply::Status(Ok(()))) {
        Next::Abort(Fault::UnexpectedReply) => {}
        other => panic!("unexpected {:?}", other),
    }
}

#[test]
fn set_scaling_factor_keeps_the_factor_even_when_libturbojpeg_fails() {
    let mut decompressor = Decompressor::new();
    assert_eq!(decompressor.scaling_factor(), ScalingFactor::One);
    let job = match decompressor.set_scaling_factor(ScalingFactor::OneQuarter) {
        Next::Call(job, Call::SetScalingFactor(fraction)) => {
            assert_eq!((fraction.num, fraction.denom), (1, 4));
            job
        }
        other => panic!("unexpected {:?}", other),
    };
    assert_eq!(decompressor.scaling_factor(), ScalingFactor::OneQuarter);
    match job.resume(Reply::Status(Err("Invalid argument".to_string()))) {
        Next::Done(Err(Error::TurboJpegError(message))) => assert_eq!(message, "Invalid argument"),
        other => panic!("unexpected {:?}", other),
    }
    assert_eq!(decompressor.scaling_factor(), ScalingFactor::OneQuarter);
}

#[test]
fn set_scaling_factor_succeeds() {
    let mut decompressor = Decompressor::new();
    let job = match decompressor.set_scaling_factor(ScalingFactor::OneHalf) {
        Next::Call(job, Call::SetScalingFactor(_)) => job,
        other => panic!("unexpected {:?}", other),
    };
    match job.resume(Reply::Status(Ok(()))) {
        Next::Done(Ok(())) => {}
        other => panic!("unexpected {:?}", other),
    }
    assert_eq!(decompressor.scaling_factor(), ScalingFactor::OneHalf);
}

#[test]
fn set_scaling_factor_aborts_on_a_reply_to_another_call() {
    let mut decompressor = Decompressor::new();
    let job = match decompressor.set_scaling_factor(ScalingFactor::OneEighth) {
        Next::Call(job, _) => job,
        other => panic!("unexpected {:?}", other),
    };
    match job.resume(Reply::Size(3)) {
        Next::Abort(Fault::UnexpectedReply) => {}
        other => panic!("unexpected {:?}", other),
    }
}
