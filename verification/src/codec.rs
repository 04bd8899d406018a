//! Payload compression: gzip through `flate2`, zstd through `zstd`.
//!
//! The compressed and decompressed bytes are named results: each is a function
//! of the input bytes (and, for zstd, the level) that the outside crate
//! computes.

use vstd::prelude::*;
use std::io::Read;
use std::io::Write;
use crate::sfx::PayloadCompression;

verus! {

/// The zstd level the packer uses (zstd's own default level).
pub const ZSTD_LEVEL: i32 = 3;

/// The gzip stream that `flate2` writes for `data` at its best compression,
/// or `None` when its encoder reports an error. The encoder is deterministic
/// Rust code writing into memory, so whether it fails depends on `data` alone.
pub uninterp spec fn gzip_compressed(data: Seq<u8>) -> Option<Seq<u8>>;

/// The bytes that `flate2`'s gzip decoder reads out of `data`, or `None` when
/// it reports an error.
pub uninterp spec fn gzip_decompressed(data: Seq<u8>) -> Option<Seq<u8>>;

/// The zstd frame that `zstd` writes for `data` at `level` when it succeeds.
/// Whether it succeeds is not named: the C library can fail on the machine's
/// account (an allocation), not the data's.
pub uninterp spec fn zstd_compressed(data: Seq<u8>, level: i32) -> Seq<u8>;

/// The bytes that `zstd` decodes out of `data`, or `None` when `data` is not
/// made of zstd frames that decode. A decoding that fails on the machine's
/// account (an allocation) is not covered by this name.
pub uninterp spec fn zstd_decompressed(data: Seq<u8>) -> Option<Seq<u8>>;

/// Declares `std::io::Error`, the error of the codecs.
#[verifier::external_type_specification]
#[verifier::external_body]
pub struct ExIoError(std::io::Error);

/// The text of an I/O error.
///
/// Wraps `ToString::to_string` on `std::io::Error`; nothing is claimed of the
/// text.
#[verifier::external_body]
pub(crate) fn io_error_message(e: &std::io::Error) -> String {
    e.to_string()
}

/// Compresses `data` into a gzip stream at the best compression level.
///
/// Wraps `flate2::write::GzEncoder` (`new`, `write_all`, `finish`) over a
/// `Vec<u8>`. The contract claims that the call succeeds exactly when the
/// named result `gzip_compressed(data)` is a stream, and then returns it, and
/// that gzip decoding gives `data` back: what a lossless compressor documents.
#[verifier::external_body]
fn gzip_compress(data: &[u8]) -> (r: Result<Vec<u8>, std::io::Error>)
    ensures
        match r {
            Ok(v) => gzip_compressed(data@) == Some(v@) && gzip_decompressed(v@) == Some(data@),
            Err(_) => gzip_compressed(data@) is None,
        },
{
    let mut encoder = flate2::write::GzEncoder::new(Vec::new(), flate2::Compression::best());
    encoder.write_all(data)?;
    encoder.finish()
}

/// Decompresses the gzip stream at the start of `data`.
///
/// Wraps `flate2::read::GzDecoder` (`new`, `read_to_end`) over the slice. The
/// contract claims that the call succeeds exactly when the named result
/// `gzip_decompressed(data)` is some bytes, and then returns them.
#[verifier::external_body]
fn gzip_decompress(data: &[u8]) -> (r: Result<Vec<u8>, std::io::Error>)
    ensures
        match r {
            Ok(v) => gzip_decompressed(data@) == Some(v@),
            Err(_) => gzip_decompressed(data@) is None,
        },
{
    let mut decoder = flate2::read::GzDecoder::new(data);
    let mut out = Vec::new();
    decoder.read_to_end(&mut out)?;
    Ok(out)
}

/// Compresses `data` into a zstd frame at `level`.
///
/// Wraps `zstd::stream::encode_all`. The contract claims that a result is the
/// named frame `zstd_compressed(data, level)`, and that zstd decoding gives
/// `data` back: what a lossless compressor documents.
#[verifier::external_body]
fn zstd_compress(data: &[u8], level: i32) -> (r: Result<Vec<u8>, std::io::Error>)
    ensures
        r matches Ok(v) ==> v@ == zstd_compressed(data@, level) && zstd_decompressed(v@) == Some(
            data@,
        ),
{
    zstd::stream::encode_all(data, level)
}

/// Decompresses the zstd frames in `data`.
///
/// Wraps `zstd::stream::decode_all`. The contract claims that bytes it
/// returns are the named decoding `zstd_decompressed(data)`. Nothing is
/// claimed of an error: the decoder can fail on the machine's account (it
/// cannot allocate its context) whatever `data` holds.
#[verifier::external_body]
fn zstd_decompress(data: &[u8]) -> (r: Result<Vec<u8>, std::io::Error>)
    ensures
        r matches Ok(v) ==> zstd_decompressed(data@) == Some(v@),
{
    zstd::stream::decode_all(data)
}


/// The payload bytes that the packer writes for `data` with compression `c`:
/// for gzip, `None` where the encoder fails on `data`; for zstd, the frame
/// written whenever the encoder succeeds.
pub open spec fn spec_compress(c: PayloadCompression, data: Seq<u8>) -> Option<Seq<u8>> {
    match c {
        PayloadCompression::Gzip => gzip_compressed(data),
        PayloadCompression::Zstd => Some(zstd_compressed(data, ZSTD_LEVEL)),
    }
}

/// The bytes that decompressing `data` with compression `c` gives.
pub open spec fn spec_decompress(c: PayloadCompression, data: Seq<u8>) -> Option<Seq<u8>> {
    match c {
        PayloadCompression::Gzip => gzip_decompressed(data),
        PayloadCompression::Zstd => zstd_decompressed(data),
    }
}

/// Compresses `data` with compression `c`: gzip at the best level, zstd at
/// `ZSTD_LEVEL`.
///
/// The compressed bytes decompress to `data`. A gzip compression fails exactly
/// where the encoder fails on `data`; a zstd one may also fail on the
/// machine's account.
pub fn compress(c: PayloadCompression, data: &[u8]) -> (r: Result<Vec<u8>, std::io::Error>)
    ensures
        match r {
            Ok(v) => spec_compress(c, data@) == Some(v@) && spec_decompress(c, v@) == Some(data@),
            Err(_) => c is Zstd || spec_compress(c, data@) is None,
        },
{
    match c {
        PayloadCompression::Gzip => gzip_compress(data),
        PayloadCompression::Zstd => zstd_compress(data, ZSTD_LEVEL),
    }
}

/// Decompresses `data` with compression `c`.
///
/// A gzip decompression fails exactly where `data` does not decode; a zstd
/// one may also fail on the machine's account.
pub fn decompress(c: PayloadCompression, data: &[u8]) -> (r: Result<Vec<u8>, std::io::Error>)
    ensures
        match r {
            Ok(v) => spec_decompress(c, data@) == Some(v@),
            Err(_) => c is Zstd || spec_decompress(c, data@) is None,
        },
{
    match c {
        PayloadCompression::Gzip => gzip_decompress(data),
        PayloadCompression::Zstd => zstd_decompress(data),
    }
}

} // verus!
