//! Packing a staged directory's archive into a self-extracting executable.

use vstd::prelude::*;
use crate::codec::{compress, io_error_message, spec_compress};
use crate::runner::extractor::{spec_embedded_payload, spec_unpack};
use crate::sfx::{
    BundleView, PayloadCompression, encode_metadata, footer_bytes, lemma_bundle_roundtrip,
    spec_footer, spec_metadata, spec_read_bundle,
};
use crate::text::{
    digits, format_digits, is_lower_hex_digit, lemma_hex_digits, lemma_hex_digits_injective,
};

verus! {

/// How a directory is packed.
#[derive(Debug, Clone)]
pub struct PackOptions {
    /// The stub executable to prepend; the running executable when absent.
    pub stub_path: Option<String>,
    /// Whether the bundle gets a build uid (so that each build is extracted
    /// into a cache directory of its own).
    pub unique_id: bool,
    /// How the payload archive is compressed.
    pub payload_compression: PayloadCompression,
}

/// What packing produced.
#[derive(Debug, Clone)]
pub struct PackManifest {
    pub build_uid: String,
}

/// Why a bundle could not be packed.
#[derive(Debug, Clone, PartialEq, Eq)]
pub enum PackError {
    /// The metadata block is longer than the footer can record.
    MetadataTooLarge,
    /// The payload could not be compressed; the text of the codec's error.
    Compression(String),
}

impl PackError {
    /// The message shown for this error.
    pub open spec fn spec_message(self) -> Seq<char> {
        match self {
            PackError::MetadataTooLarge => "packed metadata is too large for the footer"@,
            PackError::Compression(m) => m@,
        }
    }

    pub fn to_string(&self) -> (s: String)
        ensures
            s@ == self.spec_message(),
    {
        match self {
            PackError::MetadataTooLarge => "packed metadata is too large for the footer".to_owned(),
            PackError::Compression(m) => m.clone(),
        }
    }
}

/// The bytes of a packed executable: stub, payload, metadata, footer.
pub open spec fn spec_bundle(
    stub: Seq<u8>,
    payload: Seq<u8>,
    exec_relpath: Seq<char>,
    build_uid: Seq<char>,
    c: PayloadCompression,
) -> Seq<u8> {
    let m = spec_metadata(exec_relpath, build_uid);
    stub + payload + m + spec_footer(payload.len() as u64, m.len() as u32, c)
}

/// Appends the payload, metadata and footer to the stub.
pub fn assemble_bundle(
    stub: &[u8],
    payload: &[u8],
    exec_relpath: &str,
    build_uid: &str,
    payload_compression: PayloadCompression,
) -> (r: Result<Vec<u8>, PackError>)
    ensures
        r is Err <==> spec_metadata(exec_relpath@, build_uid@).len() > u32::MAX,
        r matches Err(e) ==> e == PackError::MetadataTooLarge,
        r matches Ok(b) ==> b@ == spec_bundle(
            stub@,
            payload@,
            exec_relpath@,
            build_uid@,
            payload_compression,
        ),
{
    let metadata = encode_metadata(exec_relpath, build_uid);
    if metadata.len() > u32::MAX as usize {
        return Err(PackError::MetadataTooLarge);
    }
    let footer = footer_bytes(payload.len() as u64, metadata.len() as u32, payload_compression);
    let mut bytes: Vec<u8> = Vec::new();
    bytes.extend_from_slice(stub);
    bytes.extend_from_slice(payload);
    bytes.extend_from_slice(metadata.as_slice());
    bytes.extend_from_slice(footer.as_slice());
    assert(bytes@ =~= spec_bundle(stub@, payload@, exec_relpath@, build_uid@, payload_compression));
    Ok(bytes)
}

/// Compresses `archive` and packs it behind `stub`.
///
/// A bundle that comes back reads back to the entrypoint, build uid, payload
/// position and compression it was packed with, and unpacks to `archive`,
/// whenever the entrypoint is a non-empty path without NUL characters (as the
/// path of a file always is).
pub fn pack_bundle(
    stub: &[u8],
    archive: &[u8],
    exec_relpath: &str,
    build_uid: &str,
    payload_compression: PayloadCompression,
) -> (r: Result<Vec<u8>, PackError>)
    ensures
        r matches Ok(b) ==> spec_compress(payload_compression, archive@) matches Some(p) && b@
            == spec_bundle(stub@, p, exec_relpath@, build_uid@, payload_compression),
        r matches Err(PackError::MetadataTooLarge) ==> spec_metadata(exec_relpath@, build_uid@).len()
            > u32::MAX,
        r matches Err(PackError::Compression(_)) ==> payload_compression is Zstd || spec_compress(
            payload_compression,
            archive@,
        ) is None,
        spec_metadata(exec_relpath@, build_uid@).len() > u32::MAX ==> r is Err,
        spec_compress(payload_compression, archive@) is None ==> r is Err,
        exec_relpath@.len() > 0 && !exec_relpath@.contains('\0') ==> (r matches Ok(b) ==> {
            &&& spec_read_bundle(b@) == Ok::<BundleView, crate::sfx::SfxError>(
                BundleView {
                    exec_relpath: exec_relpath@,
                    build_uid: build_uid@,
                    payload_offset: stub@.len() as u64,
                    payload_len: spec_compress(payload_compression, archive@).unwrap().len() as u64,
                    payload_compression,
                },
            )
            &&& spec_unpack(b@) == Some(archive@)
        }),
{
    let payload = match compress(payload_compression, archive) {
        Ok(p) => p,
        Err(e) => {
            if encode_metadata(exec_relpath, build_uid).len() > u32::MAX as usize {
                return Err(PackError::MetadataTooLarge);
            }
            return Err(PackError::Compression(io_error_message(&e)));
        },
    };
    let bundle = assemble_bundle(stub, payload.as_slice(), exec_relpath, build_uid, payload_compression)?;
    proof {
        let _ = bundle@.len();
    }
    let total = bundle.len();
    proof {
        if exec_relpath@.len() > 0 && !exec_relpath@.contains('\0') {
            assert(stub@.len() + payload@.len() <= total);
            lemma_bundle_roundtrip(stub@, payload@, exec_relpath@, build_uid@, payload_compression);
            let b = bundle@;
            let n = stub@.len() as int;
            let view = BundleView {
                exec_relpath: exec_relpath@,
                build_uid: build_uid@,
                payload_offset: n as u64,
                payload_len: payload@.len() as u64,
                payload_compression,
            };
            assert(spec_read_bundle(b) == Ok::<BundleView, crate::sfx::SfxError>(view));
            assert(b.subrange(n, n + payload@.len()) =~= payload@);
            assert(spec_embedded_payload(b, view) == Ok::<Seq<u8>, crate::runner::extractor::ExtractError>(payload@));
        }
    }
    Ok(bundle)
}

/// The build uid for a build started `timestamp_nanos` after the Unix epoch
/// by process `pid`: both numbers in lower-case hexadecimal, one after the
/// other. It is never empty and holds only `0-9a-f`.
pub fn format_uid(timestamp_nanos: u128, pid: u32) -> (uid: String)
    ensures
        uid@ == digits(timestamp_nanos as nat, 16) + digits(pid as nat, 16),
        uid@.len() > 0,
        forall|j: int| 0 <= j < uid@.len() ==> is_lower_hex_digit(#[trigger] uid@[j]),
{
    let mut uid = format_digits(timestamp_nanos, 16);
    let p = format_digits(pid as u128, 16);
    uid.append(p.as_str());
    proof {
        let a = digits(timestamp_nanos as nat, 16);
        let b = digits(pid as nat, 16);
        lemma_hex_digits(timestamp_nanos as nat);
        lemma_hex_digits(pid as nat);
        assert forall|j: int| 0 <= j < uid@.len() implies is_lower_hex_digit(#[trigger] uid@[j]) by {
            if j < a.len() {
                assert(uid@[j] == a[j]);
            } else {
                assert(uid@[j] == b[j - a.len()]);
            }
        }
    }
    uid
}

/// Two builds by one process at different times get different build uids.
pub proof fn lemma_build_uids_differ(first_nanos: u128, second_nanos: u128, pid: u32)
    requires
        first_nanos != second_nanos,
    ensures
        digits(first_nanos as nat, 16) + digits(pid as nat, 16) != digits(second_nanos as nat, 16)
            + digits(pid as nat, 16),
{
    let a = digits(first_nanos as nat, 16);
    let b = digits(second_nanos as nat, 16);
    let p = digits(pid as nat, 16);
    if a + p == b + p {
        assert((a + p).len() == (b + p).len());
        assert(a.len() == b.len());
        assert(a =~= (a + p).subrange(0, a.len() as int));
        assert(b =~= (b + p).subrange(0, b.len() as int));
        lemma_hex_digits_injective(first_nanos as nat, second_nanos as nat);
    }
}

/// The build uid of a pack: with a unique id asked for, the one for a build
/// started `timestamp_nanos` after the Unix epoch by process `pid`; else
/// empty.
pub fn build_uid(unique_id: bool, timestamp_nanos: u128, pid: u32) -> (uid: String)
    ensures
        uid@ == if unique_id {
            digits(timestamp_nanos as nat, 16) + digits(pid as nat, 16)
        } else {
            Seq::<char>::empty()
        },
{
    if unique_id {
        format_uid(timestamp_nanos, pid)
    } else {
        String::new()
    }
}

} // verus!
