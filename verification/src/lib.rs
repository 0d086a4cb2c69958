//! Decompression of JPEG images through libturbojpeg, with the decisions verified.
//!
//! Each operation is a job: it asks for one libturbojpeg call at a time (`protocol::Call`),
//! and whoever holds the libturbojpeg handle makes the call and resumes the job with its
//! outcome (`protocol::Reply`), until the job is done.

pub mod common;
pub mod decompress;
pub mod image;
pub mod oneshot;
pub mod output;
pub mod protocol;

pub use common::{Colorspace, Error, PixelFormat, Subsamp};
pub use decompress::{DecompressHeader, Decompressor, ScalingFactor, ScalingFraction, yuv_pixels_len};
pub use image::{Image, YuvImage};
pub use oneshot::{decompress, decompress_to_yuv, read_header};
pub use protocol::{Call, Fault, HeaderParams, Next, Reply};
