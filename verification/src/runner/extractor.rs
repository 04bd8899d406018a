//! Locating and decompressing the payload archive of a packed executable.

use vstd::prelude::*;
use vstd::slice::*;
use crate::codec::{decompress, io_error_message, spec_decompress};
use crate::sfx::{BundleMetadata, BundleView, spec_read_bundle};

verus! {

/// Why the payload archive could not be taken out of a packed executable.
#[derive(Debug, Clone, PartialEq, Eq)]
pub enum ExtractError {
    /// The payload's end does not fit in a `usize`.
    PayloadLengthOverflow,
    /// The payload reaches past the end of the file.
    PayloadOutOfBounds,
    /// The payload does not decompress; the text of the codec's error.
    Decompression(String),
}

impl ExtractError {
    /// The message shown for this error.
    pub open spec fn spec_message(self) -> Seq<char> {
        match self {
            ExtractError::PayloadLengthOverflow => "payload length overflowed"@,
            ExtractError::PayloadOutOfBounds => "embedded payload did not fit inside the packed executable"@,
            ExtractError::Decompression(m) => m@,
        }
    }

    pub fn to_string(&self) -> (s: String)
        ensures
            s@ == self.spec_message(),
    {
        match self {
            ExtractError::PayloadLengthOverflow => "payload length overflowed".to_owned(),
            ExtractError::PayloadOutOfBounds => "embedded payload did not fit inside the packed executable".to_owned(),
            ExtractError::Decompression(m) => m.clone(),
        }
    }
}

/// The payload bytes that a bundle's metadata points at.
pub open spec fn spec_embedded_payload(bytes: Seq<u8>, b: BundleView) -> Result<Seq<u8>, ExtractError> {
    let start = b.payload_offset as int;
    let end = start + b.payload_len;
    if end > usize::MAX {
        Err(ExtractError::PayloadLengthOverflow)
    } else if end > bytes.len() {
        Err(ExtractError::PayloadOutOfBounds)
    } else {
        Ok(bytes.subrange(start, end))
    }
}

/// The archive that a packed executable carries: its bundle is read, its
/// payload located and decompressed.
pub open spec fn spec_unpack(bytes: Seq<u8>) -> Option<Seq<u8>> {
    match spec_read_bundle(bytes) {
        Ok(b) => match spec_embedded_payload(bytes, b) {
            Ok(p) => spec_decompress(b.payload_compression, p),
            Err(_) => None,
        },
        Err(_) => None,
    }
}

/// The payload bytes that `bundle` points at inside `bytes`.
pub fn embedded_payload<'a>(bytes: &'a [u8], bundle: &BundleMetadata) -> (r: Result<&'a [u8], ExtractError>)
    ensures
        match r {
            Ok(p) => spec_embedded_payload(bytes@, bundle@) == Ok::<Seq<u8>, ExtractError>(p@),
            Err(e) => spec_embedded_payload(bytes@, bundle@) == Err::<Seq<u8>, ExtractError>(e),
        },
{
    let offset = bundle.payload_offset;
    let len = bundle.payload_len;
    if offset > usize::MAX as u64 {
        return Err(ExtractError::PayloadLengthOverflow);
    }
    let start = offset as usize;
    if len > (usize::MAX - start) as u64 {
        return Err(ExtractError::PayloadLengthOverflow);
    }
    let end = start + len as usize;
    if end > bytes.len() {
        return Err(ExtractError::PayloadOutOfBounds);
    }
    Ok(slice_subrange(bytes, start, end))
}

/// The decompressed payload archive of a packed executable whose bundle
/// metadata has already been read. A zstd payload can also fail to
/// decompress on the machine's account.
///
/// The whole payload is decompressed before anything is unpacked, so a payload
/// whose compressed stream is damaged after the end of the archive it holds
/// is refused here, where a decoder streaming into the unpacker would have
/// stopped at the archive's end and succeeded.
pub fn payload_archive(bytes: &[u8], bundle: &BundleMetadata) -> (r: Result<Vec<u8>, ExtractError>)
    ensures
        match r {
            Ok(v) => spec_embedded_payload(bytes@, bundle@) matches Ok(p) && spec_decompress(
                bundle.payload_compression,
                p,
            ) == Some(v@),
            Err(ExtractError::Decompression(_)) => spec_embedded_payload(bytes@, bundle@) matches Ok(
                p,
            ) && (bundle.payload_compression is Zstd || spec_decompress(
                bundle.payload_compression,
                p,
            ) is None),
            Err(e) => spec_embedded_payload(bytes@, bundle@) == Err::<Seq<u8>, ExtractError>(e),
        },
{
    let payload = embedded_payload(bytes, bundle)?;
    match decompress(bundle.payload_compression, payload) {
        Ok(v) => Ok(v),
        Err(e) => Err(ExtractError::Decompression(io_error_message(&e))),
    }
}

} // verus!
