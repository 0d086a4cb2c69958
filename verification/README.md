# turbojpeg

JPEG decompression through libturbojpeg, with the decisions proved.

Every operation of the decompressor is a job that asks for one libturbojpeg call at a
time (`protocol::Call`) and decides, from the outcome it is handed back
(`protocol::Reply`), what comes next: the next call, a result, or an abort. The jobs are
verified: their contracts state each step exactly. For packed output, libturbojpeg is only
asked to write into a buffer that the whole image it writes fits in: the scaled image, or
the unscaled one for a lossless JPEG. For YUV output, the buffer holds at least the
non-zero size that libturbojpeg reports for the planes it writes: that image, with the
JPEG's own subsampling and the output's alignment. Both rest on libturbojpeg decoding with
the decompressor's scaling factor, that is on the last `Call::SetScalingFactor` having
succeeded; the decompressor takes a factor even when libturbojpeg refuses it.

Layout:

- `src/common.rs`: pixel formats, subsampling, colorspaces, errors, integer conversions.
- `src/image.rs`: packed and YUV images, and when the rows of an image fit in its data.
- `src/decompress.rs`: scaling factors, headers, the decompressor, reading headers,
  setting the scaling factor, and the size of YUV images.
- `src/output.rs`: decompressing into a given packed or YUV image.
- `src/oneshot.rs`: reading a header and decompressing into a new image, each with a new
  decompressor.
- `src/protocol.rs`: the calls, replies and steps that jobs exchange.
- `app/`: the libturbojpeg handle and calls, which run the jobs.
- `tests/`: the jobs driven by scripted replies.
