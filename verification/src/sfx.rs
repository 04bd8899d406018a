//! The self-extracting bundle format.
//!
//! A packed executable is the stub executable, followed by the compressed
//! payload archive, the metadata block and a fixed-size footer:
//!
//! ```text
//! stub | payload | exec_relpath \0 build_uid | magic | payload_len (u64 le)
//!      |         |                           | metadata_len (u32 le) | code (u32 le)
//! ```

use vstd::prelude::*;
use vstd::bytes::*;
use vstd::slice::*;
use vstd::utf8::*;
use crate::text::{digits, format_digits, index_of, lemma_index_of, lemma_index_of_found, str_eq};

verus! {

broadcast use vstd::utf8::group_utf8_lib;

/// Length of the footer magic `PYBIN_SFX_V1__\0`.
pub const FOOTER_MAGIC_LEN: usize = 15;

/// Length of the footer: magic, payload length, metadata length, compression.
pub const FOOTER_LEN: usize = 31;

/// The footer magic, `b"PYBIN_SFX_V1__\0"`.
pub open spec fn footer_magic() -> Seq<u8> {
    seq![80u8, 89, 66, 73, 78, 95, 83, 70, 88, 95, 86, 49, 95, 95, 0]
}

fn footer_magic_bytes() -> (v: Vec<u8>)
    ensures
        v@ == footer_magic(),
{
    let v: Vec<u8> = vec![80u8, 89, 66, 73, 78, 95, 83, 70, 88, 95, 86, 49, 95, 95, 0];
    assert(v@ =~= footer_magic());
    v
}

/// How the embedded payload archive is compressed.
#[derive(Debug, Clone, Copy, PartialEq, Eq, Structural)]
pub enum PayloadCompression {
    Gzip,
    Zstd,
}

impl PayloadCompression {
    /// The number that stands for this compression in the footer.
    pub open spec fn spec_footer_code(self) -> u32 {
        match self {
            PayloadCompression::Gzip => 1,
            PayloadCompression::Zstd => 2,
        }
    }

    /// The name of this compression.
    pub open spec fn spec_as_str(self) -> Seq<char> {
        match self {
            PayloadCompression::Gzip => "gzip"@,
            PayloadCompression::Zstd => "zstd"@,
        }
    }

    pub fn as_str(self) -> (s: &'static str)
        ensures
            s@ == self.spec_as_str(),
    {
        match self {
            PayloadCompression::Gzip => "gzip",
            PayloadCompression::Zstd => "zstd",
        }
    }

    pub fn footer_code(self) -> (code: u32)
        ensures
            code == self.spec_footer_code(),
    {
        match self {
            PayloadCompression::Gzip => 1,
            PayloadCompression::Zstd => 2,
        }
    }

    /// The compression that a footer code stands for; unknown codes are
    /// refused.
    pub fn from_footer_code(value: u32) -> (r: Result<Self, SfxError>)
        ensures
            r == spec_compression_from_code(value),
    {
        match value {
            1 => Ok(PayloadCompression::Gzip),
            2 => Ok(PayloadCompression::Zstd),
            _ => Err(SfxError::UnknownCompression(value)),
        }
    }
}

impl Default for PayloadCompression {
    fn default() -> (r: Self)
        ensures
            r == PayloadCompression::Zstd,
    {
        PayloadCompression::Zstd
    }
}

/// The compression a footer code stands for.
pub open spec fn spec_compression_from_code(code: u32) -> Result<PayloadCompression, SfxError> {
    if code == 1 {
        Ok(PayloadCompression::Gzip)
    } else if code == 2 {
        Ok(PayloadCompression::Zstd)
    } else {
        Err(SfxError::UnknownCompression(code))
    }
}

/// Decoding a footer code gives back the compression that wrote it, and a
/// code that decodes is the one that compression writes.
pub proof fn lemma_footer_code_roundtrip(c: PayloadCompression, code: u32)
    ensures
        spec_compression_from_code(c.spec_footer_code()) == Ok::<PayloadCompression, SfxError>(c),
        spec_compression_from_code(code) matches Ok(d) ==> d.spec_footer_code() == code,
{
}

/// Why a packed executable could not be read.
#[derive(Debug, Clone, Copy, PartialEq, Eq, Structural)]
pub enum SfxError {
    /// The file does not end with a pybin footer.
    InvalidFooter,
    /// The footer names a compression code that is not known.
    UnknownCompression(u32),
    /// The footer's metadata length reaches before the start of the file.
    InvalidMetadataLength,
    /// The footer's payload length reaches before the start of the file.
    InvalidPayloadLength,
    /// The metadata has no NUL byte between entrypoint and build uid.
    MissingSeparator,
    /// The entrypoint is not valid UTF-8.
    EntrypointNotUtf8,
    /// The build uid is not valid UTF-8.
    BuildUidNotUtf8,
    /// The entrypoint is empty.
    MissingEntrypoint,
}

/// Message for a file too small to hold a footer.
pub open spec fn too_small_message() -> Seq<char> {
    "packed executable was too small to contain a footer"@
}

/// Message for a file without a valid footer.
pub open spec fn invalid_footer_message() -> Seq<char> {
    "packed executable did not contain a valid pybin footer"@
}

impl SfxError {
    /// The message shown for this error.
    pub open spec fn spec_message(self) -> Seq<char> {
        match self {
            SfxError::InvalidFooter => invalid_footer_message(),
            SfxError::UnknownCompression(code) => "packed executable used an unknown payload compression code `"@
                + digits(code as nat, 10) + "`"@,
            SfxError::InvalidMetadataLength => "packed footer declared an invalid metadata length"@,
            SfxError::InvalidPayloadLength => "packed footer declared an invalid payload length"@,
            SfxError::MissingSeparator => "packed metadata did not include an entrypoint separator"@,
            SfxError::EntrypointNotUtf8 => "packed entrypoint was not valid utf-8"@,
            SfxError::BuildUidNotUtf8 => "packed build uid was not valid utf-8"@,
            SfxError::MissingEntrypoint => "packed metadata did not include an entrypoint"@,
        }
    }

    /// The message shown for this error.
    pub fn to_string(&self) -> (s: String)
        ensures
            s@ == self.spec_message(),
    {
        match self {
            SfxError::InvalidFooter => "packed executable did not contain a valid pybin footer".to_owned(),
            SfxError::UnknownCompression(code) => {
                let mut s = "packed executable used an unknown payload compression code `".to_owned();
                let d = format_digits(*code as u128, 10);
                s.append(d.as_str());
                s.append("`");
                s
            },
            SfxError::InvalidMetadataLength => "packed footer declared an invalid metadata length".to_owned(),
            SfxError::InvalidPayloadLength => "packed footer declared an invalid payload length".to_owned(),
            SfxError::MissingSeparator => "packed metadata did not include an entrypoint separator".to_owned(),
            SfxError::EntrypointNotUtf8 => "packed entrypoint was not valid utf-8".to_owned(),
            SfxError::BuildUidNotUtf8 => "packed build uid was not valid utf-8".to_owned(),
            SfxError::MissingEntrypoint => "packed metadata did not include an entrypoint".to_owned(),
        }
    }
}

/// What a packed executable records about its payload.
#[derive(Debug, Clone, PartialEq, Eq)]
pub struct BundleMetadata {
    pub exec_relpath: String,
    pub build_uid: String,
    pub payload_offset: u64,
    pub payload_len: u64,
    pub payload_compression: PayloadCompression,
}

/// The contents of a `BundleMetadata`.
pub struct BundleView {
    pub exec_relpath: Seq<char>,
    pub build_uid: Seq<char>,
    pub payload_offset: u64,
    pub payload_len: u64,
    pub payload_compression: PayloadCompression,
}

impl View for BundleMetadata {
    type V = BundleView;

    open spec fn view(&self) -> BundleView {
        BundleView {
            exec_relpath: self.exec_relpath@,
            build_uid: self.build_uid@,
            payload_offset: self.payload_offset,
            payload_len: self.payload_len,
            payload_compression: self.payload_compression,
        }
    }
}

/// The view of a read result.
pub open spec fn bundle_result_view(r: Result<BundleMetadata, SfxError>) -> Result<
    BundleView,
    SfxError,
> {
    match r {
        Ok(m) => Ok(m@),
        Err(e) => Err(e),
    }
}

/// The metadata block: the entrypoint's UTF-8 bytes, a NUL, the build uid's
/// UTF-8 bytes.
pub open spec fn spec_metadata(exec_relpath: Seq<char>, build_uid: Seq<char>) -> Seq<u8> {
    encode_utf8(exec_relpath) + seq![0u8] + encode_utf8(build_uid)
}

/// The footer for a payload of `payload_len` bytes and a metadata block of
/// `metadata_len` bytes.
pub open spec fn spec_footer(payload_len: u64, metadata_len: u32, c: PayloadCompression) -> Seq<
    u8,
> {
    footer_magic() + spec_u64_to_le_bytes(payload_len) + spec_u32_to_le_bytes(metadata_len)
        + spec_u32_to_le_bytes(c.spec_footer_code())
}

/// The metadata block for an entrypoint and a build uid.
pub fn encode_metadata(exec_relpath: &str, build_uid: &str) -> (bytes: Vec<u8>)
    ensures
        bytes@ == spec_metadata(exec_relpath@, build_uid@),
{
    let mut bytes: Vec<u8> = Vec::new();
    bytes.extend_from_slice(exec_relpath.as_bytes());
    bytes.push(0);
    bytes.extend_from_slice(build_uid.as_bytes());
    assert(bytes@ =~= spec_metadata(exec_relpath@, build_uid@));
    bytes
}

/// The footer that closes a packed executable.
pub fn footer_bytes(payload_len: u64, metadata_len: u32, payload_compression: PayloadCompression) -> (bytes: Vec<u8>)
    ensures
        bytes@ == spec_footer(payload_len, metadata_len, payload_compression),
        bytes@.len() == FOOTER_LEN,
{
    proof {
        lemma_auto_spec_u64_to_from_le_bytes();
        lemma_auto_spec_u32_to_from_le_bytes();
    }
    let mut bytes = footer_magic_bytes();
    let a = u64_to_le_bytes(payload_len);
    bytes.extend_from_slice(a.as_slice());
    let b = u32_to_le_bytes(metadata_len);
    bytes.extend_from_slice(b.as_slice());
    let c = u32_to_le_bytes(payload_compression.footer_code());
    bytes.extend_from_slice(c.as_slice());
    assert(bytes@ =~= spec_footer(payload_len, metadata_len, payload_compression));
    bytes
}


/// Declares `std::string::FromUtf8Error`, the error of `String::from_utf8`.
#[verifier::external_type_specification]
#[verifier::external_body]
pub struct ExFromUtf8Error(std::string::FromUtf8Error);

/// Wraps `String::from_utf8`: it succeeds exactly on valid UTF-8, and then
/// holds the characters that the bytes encode.
#[verifier::external_body]
fn string_from_utf8(bytes: Vec<u8>) -> (r: Result<String, std::string::FromUtf8Error>)
    ensures
        r is Ok <==> valid_utf8(bytes@),
        r matches Ok(s) ==> s@ == decode_utf8(bytes@),
{
    String::from_utf8(bytes)
}

/// Reads the metadata block.
pub open spec fn spec_decode_metadata(
    m: Seq<u8>,
    payload_offset: u64,
    payload_len: u64,
    c: PayloadCompression,
) -> Result<BundleView, SfxError> {
    match index_of(m, 0u8) {
        None => Err(SfxError::MissingSeparator),
        Some(i) => {
            let e = m.subrange(0, i);
            let u = m.subrange(i + 1, m.len() as int);
            if !valid_utf8(e) {
                Err(SfxError::EntrypointNotUtf8)
            } else if !valid_utf8(u) {
                Err(SfxError::BuildUidNotUtf8)
            } else if decode_utf8(e).len() == 0 {
                Err(SfxError::MissingEntrypoint)
            } else {
                Ok(
                    BundleView {
                        exec_relpath: decode_utf8(e),
                        build_uid: decode_utf8(u),
                        payload_offset,
                        payload_len,
                        payload_compression: c,
                    },
                )
            }
        },
    }
}

/// Reads the footer and metadata at the end of a packed executable.
pub open spec fn spec_read_bundle(bytes: Seq<u8>) -> Result<BundleView, SfxError> {
    let n = bytes.len() as int;
    if n < FOOTER_LEN || bytes.subrange(n - 31, n - 16) != footer_magic() {
        Err(SfxError::InvalidFooter)
    } else {
        let payload_len = spec_u64_from_le_bytes(bytes.subrange(n - 16, n - 8));
        let metadata_len = spec_u32_from_le_bytes(bytes.subrange(n - 8, n - 4));
        let code = spec_u32_from_le_bytes(bytes.subrange(n - 4, n));
        match spec_compression_from_code(code) {
            Err(e) => Err(e),
            Ok(c) => {
                let footer_offset = n - 31;
                if metadata_len > footer_offset {
                    Err(SfxError::InvalidMetadataLength)
                } else {
                    let metadata_start = footer_offset - metadata_len;
                    if payload_len > metadata_start {
                        Err(SfxError::InvalidPayloadLength)
                    } else {
                        spec_decode_metadata(
                            bytes.subrange(metadata_start, footer_offset),
                            (metadata_start - payload_len) as u64,
                            payload_len,
                            c,
                        )
                    }
                }
            },
        }
    }
}

fn decode_metadata(
    bytes: &[u8],
    payload_offset: u64,
    payload_len: u64,
    payload_compression: PayloadCompression,
) -> (r: Result<BundleMetadata, SfxError>)
    ensures
        bundle_result_view(r) == spec_decode_metadata(
            bytes@,
            payload_offset,
            payload_len,
            payload_compression,
        ),
{
    let mut separator: usize = 0;
    while separator < bytes.len() && bytes[separator] != 0
        invariant
            separator <= bytes@.len(),
            forall|j: int| 0 <= j < separator ==> bytes@[j] != 0u8,
        decreases bytes@.len() - separator,
    {
        separator = separator + 1;
    }
    if separator == bytes.len() {
        proof {
            lemma_index_of(bytes@, 0u8);
        }
        return Err(SfxError::MissingSeparator);
    }
    proof {
        lemma_index_of_found(bytes@, 0u8, separator as int);
    }
    let exec_bytes = slice_to_vec(slice_subrange(bytes, 0, separator));
    let uid_bytes = slice_to_vec(slice_subrange(bytes, separator + 1, bytes.len()));
    let exec_relpath = match string_from_utf8(exec_bytes) {
        Ok(s) => s,
        Err(_) => {
            return Err(SfxError::EntrypointNotUtf8);
        },
    };
    let build_uid = match string_from_utf8(uid_bytes) {
        Ok(s) => s,
        Err(_) => {
            return Err(SfxError::BuildUidNotUtf8);
        },
    };
    if exec_relpath.as_str().unicode_len() == 0 {
        return Err(SfxError::MissingEntrypoint);
    }
    Ok(
        BundleMetadata {
            exec_relpath,
            build_uid,
            payload_offset,
            payload_len,
            payload_compression,
        },
    )
}

/// Reads the bundle metadata from the bytes of a packed executable.
pub fn read_bundle_from_bytes(bytes: &[u8]) -> (r: Result<BundleMetadata, SfxError>)
    ensures
        bundle_result_view(r) == spec_read_bundle(bytes@),
{
    let n = bytes.len();
    if n < FOOTER_LEN {
        return Err(SfxError::InvalidFooter);
    }
    let footer = slice_subrange(bytes, n - FOOTER_LEN, n);
    let magic = footer_magic_bytes();
    let mut i: usize = 0;
    while i < FOOTER_MAGIC_LEN
        invariant
            n == bytes@.len(),
            n >= 31,
            footer@ == bytes@.subrange(n - 31, n as int),
            magic@ == footer_magic(),
            i <= FOOTER_MAGIC_LEN,
            forall|j: int| 0 <= j < i ==> footer@[j] == magic@[j],
        decreases FOOTER_MAGIC_LEN - i,
    {
        if footer[i] != magic[i] {
            assert(bytes@.subrange(n - 31, n - 16)[i as int] != footer_magic()[i as int]);
            return Err(SfxError::InvalidFooter);
        }
        i = i + 1;
    }
    assert(bytes@.subrange(n - 31, n - 16) =~= footer_magic());
    let payload_len = u64_from_le_bytes(slice_subrange(footer, 15, 23));
    let metadata_len = u32_from_le_bytes(slice_subrange(footer, 23, 27));
    let code = u32_from_le_bytes(slice_subrange(footer, 27, 31));
    assert(footer@.subrange(15, 23) =~= bytes@.subrange(n - 16, n - 8));
    assert(footer@.subrange(23, 27) =~= bytes@.subrange(n - 8, n - 4));
    assert(footer@.subrange(27, 31) =~= bytes@.subrange(n - 4, n as int));
    let payload_compression = match PayloadCompression::from_footer_code(code) {
        Ok(c) => c,
        Err(e) => {
            return Err(e);
        },
    };
    let footer_offset = n - FOOTER_LEN;
    let metadata_len = metadata_len as usize;
    if metadata_len > footer_offset {
        return Err(SfxError::InvalidMetadataLength);
    }
    let metadata_start = footer_offset - metadata_len;
    if payload_len > metadata_start as u64 {
        return Err(SfxError::InvalidPayloadLength);
    }
    let payload_start = metadata_start as u64 - payload_len;
    let metadata = slice_subrange(bytes, metadata_start, footer_offset);
    decode_metadata(metadata, payload_start, payload_len, payload_compression)
}


/// Whether an error message is one of the two that mean "this file carries no
/// bundle".
pub fn looks_like_missing_bundle_error(message: &str) -> (r: bool)
    ensures
        r == (message@ == too_small_message() || message@ == invalid_footer_message()),
{
    str_eq(message, "packed executable was too small to contain a footer") || str_eq(
        message,
        "packed executable did not contain a valid pybin footer",
    )
}

/// Of the errors a read can give, only `InvalidFooter` has a message that
/// means "no bundle here".
pub proof fn lemma_missing_bundle_message(e: SfxError)
    ensures
        (e.spec_message() == too_small_message() || e.spec_message() == invalid_footer_message())
            <==> e == SfxError::InvalidFooter,
{
    reveal_strlit("packed executable was too small to contain a footer");
    reveal_strlit("packed executable did not contain a valid pybin footer");
    reveal_strlit("packed executable used an unknown payload compression code `");
    reveal_strlit("`");
    reveal_strlit("packed footer declared an invalid metadata length");
    reveal_strlit("packed footer declared an invalid payload length");
    reveal_strlit("packed metadata did not include an entrypoint separator");
    reveal_strlit("packed entrypoint was not valid utf-8");
    reveal_strlit("packed build uid was not valid utf-8");
    reveal_strlit("packed metadata did not include an entrypoint");
    assert(too_small_message().len() == 51);
    assert(invalid_footer_message().len() == 54);
    if let SfxError::UnknownCompression(code) = e {
        assert(digits(code as nat, 10).len() >= 1);
        assert(e.spec_message().len() >= 62);
    }
}

/// Whether bytes end with a bundle: `Ok(false)` when there is no pybin
/// footer, `Ok(true)` when the bundle reads, and the read error otherwise.
pub open spec fn spec_embedded_bundle_present(bytes: Seq<u8>) -> Result<bool, SfxError> {
    match spec_read_bundle(bytes) {
        Ok(_) => Ok(true),
        Err(SfxError::InvalidFooter) => Ok(false),
        Err(e) => Err(e),
    }
}

/// A file carries no bundle exactly when it does not end with a pybin footer:
/// it is shorter than a footer, or the footer's place does not start with
/// the footer magic, whatever its length. A file that reads as a bundle
/// carries one, and any other read error is reported as it is.
pub proof fn lemma_bundle_presence(bytes: Seq<u8>)
    ensures
        spec_embedded_bundle_present(bytes) == Ok::<bool, SfxError>(false) <==> (bytes.len() < FOOTER_LEN
            || bytes.subrange(bytes.len() - 31, bytes.len() - 16) != footer_magic()),
        spec_read_bundle(bytes) is Ok ==> spec_embedded_bundle_present(bytes) == Ok::<bool, SfxError>(
            true,
        ),
        spec_read_bundle(bytes) matches Err(e) ==> (e != SfxError::InvalidFooter
            ==> spec_embedded_bundle_present(bytes) == Err::<bool, SfxError>(e)),
{
}

/// Whether the bytes of an executable end with a bundle.
pub fn embedded_bundle_present(bytes: &[u8]) -> (r: Result<bool, SfxError>)
    ensures
        r == spec_embedded_bundle_present(bytes@),
{
    match read_bundle_from_bytes(bytes) {
        Ok(_) => Ok(true),
        Err(error) => {
            let message = error.to_string();
            proof {
                lemma_missing_bundle_message(error);
            }
            if looks_like_missing_bundle_error(message.as_str()) {
                Ok(false)
            } else {
                Err(error)
            }
        },
    }
}

/// No byte of the UTF-8 encoding of a string without NUL characters is zero.
pub proof fn lemma_encode_utf8_no_zero(s: Seq<char>)
    requires
        !s.contains('\0'),
    ensures
        forall|j: int| 0 <= j < encode_utf8(s).len() ==> encode_utf8(s)[j] != 0u8,
    decreases s.len(),
{
    if s.len() > 0 {
        let c = s[0];
        let u = c as u32;
        assert(s[0] != '\0');
        assert(u != 0) by {
            char_u32_cast(c, u);
        }
        char_is_scalar(c);
        let first = encode_scalar(u);
        if has_width_1_encoding(u) {
            assert(leading_byte_width_1(u) != 0u8) by (bit_vector)
                requires
                    1 <= u <= 0x7f,
            ;
        } else {
            assert(leading_byte_width_2(u) != 0u8) by (bit_vector);
            assert(leading_byte_width_3(u) != 0u8) by (bit_vector);
            assert(leading_byte_width_4(u) != 0u8) by (bit_vector);
            assert(last_continuation_byte(u) != 0u8) by (bit_vector);
            assert(second_last_continuation_byte(u) != 0u8) by (bit_vector);
            assert(third_last_continuation_byte(u) != 0u8) by (bit_vector);
        }
        assert forall|j: int| 0 <= j < first.len() implies first[j] != 0u8 by {}
        let rest = s.drop_first();
        assert(!rest.contains('\0')) by {
            if rest.contains('\0') {
                let k = choose|k: int| 0 <= k < rest.len() && rest[k] == '\0';
                assert(s[k + 1] == '\0');
            }
        }
        lemma_encode_utf8_no_zero(rest);
        assert(encode_utf8(s) == first + encode_utf8(rest));
    }
}

/// Reading back a packed executable gives the entrypoint, build uid, payload
/// position, payload length and compression that it was packed with, whatever
/// the stub and payload bytes are.
pub proof fn lemma_bundle_roundtrip(
    stub: Seq<u8>,
    payload: Seq<u8>,
    exec_relpath: Seq<char>,
    build_uid: Seq<char>,
    c: PayloadCompression,
)
    requires
        exec_relpath.len() > 0,
        !exec_relpath.contains('\0'),
        stub.len() + payload.len() <= u64::MAX,
        spec_metadata(exec_relpath, build_uid).len() <= u32::MAX,
    ensures
        spec_read_bundle(
            stub + payload + spec_metadata(exec_relpath, build_uid) + spec_footer(
                payload.len() as u64,
                spec_metadata(exec_relpath, build_uid).len() as u32,
                c,
            ),
        ) == Ok::<BundleView, SfxError>(
            BundleView {
                exec_relpath,
                build_uid,
                payload_offset: stub.len() as u64,
                payload_len: payload.len() as u64,
                payload_compression: c,
            },
        ),
{
    lemma_auto_spec_u64_to_from_le_bytes();
    lemma_auto_spec_u32_to_from_le_bytes();
    let m = spec_metadata(exec_relpath, build_uid);
    let pl = payload.len() as u64;
    let ml = m.len() as u32;
    let f = spec_footer(pl, ml, c);
    let b = stub + payload + m + f;
    let n = b.len() as int;
    let s = stub.len() as int;
    assert(f.len() == 31);
    assert(b.subrange(n - 31, n - 16) =~= footer_magic());
    assert(b.subrange(n - 16, n - 8) =~= spec_u64_to_le_bytes(pl));
    assert(b.subrange(n - 8, n - 4) =~= spec_u32_to_le_bytes(ml));
    assert(b.subrange(n - 4, n) =~= spec_u32_to_le_bytes(c.spec_footer_code()));
    let fo = n - 31;
    let ms = fo - ml;
    assert(ms == s + pl);
    assert(b.subrange(ms, fo) =~= m);
    let e = encode_utf8(exec_relpath);
    let u = encode_utf8(build_uid);
    lemma_encode_utf8_no_zero(exec_relpath);
    assert(m[e.len() as int] == 0u8);
    assert forall|j: int| 0 <= j < e.len() implies m[j] != 0u8 by {
        assert(m[j] == e[j]);
    }
    lemma_index_of_found(m, 0u8, e.len() as int);
    assert(m.subrange(0, e.len() as int) =~= e);
    assert(m.subrange(e.len() + 1 as int, m.len() as int) =~= u);
    assert(decode_utf8(e) == exec_relpath);
    assert(decode_utf8(u) == build_uid);
}


/// A string holding a NUL character has a zero byte in its UTF-8 encoding.
proof fn lemma_encode_utf8_zero(s: Seq<char>, k: int)
    requires
        0 <= k < s.len(),
        s[k] == '\0',
    ensures
        exists|j: int| 0 <= j < encode_utf8(s).len() && encode_utf8(s)[j] == 0u8,
    decreases s.len(),
{
    let first = encode_scalar(s[0] as u32);
    let rest = s.drop_first();
    assert(encode_utf8(s) == first + encode_utf8(rest));
    if k == 0 {
        let u = s[0] as u32;
        assert(u == 0) by {
            char_u32_cast(s[0], u);
        }
        assert(leading_byte_width_1(0u32) == 0u8) by (bit_vector);
        assert(encode_utf8(s)[0] == 0u8);
    } else {
        assert(rest[k - 1] == '\0');
        lemma_encode_utf8_zero(rest, k - 1);
        let j = choose|j: int| 0 <= j < encode_utf8(rest).len() && encode_utf8(rest)[j] == 0u8;
        assert(encode_utf8(s)[first.len() + j] == 0u8);
    }
}

/// A file that reads as a bundle ends with the bundle's metadata block and
/// then its footer, recording the payload's length, the metadata's length and
/// the compression; the payload ends where the metadata starts; and the
/// entrypoint is a non-empty text without NUL characters. (The bytes are those
/// of a slice, so their number fits in `usize`.)
pub proof fn lemma_read_bundle_layout(bytes: Seq<u8>)
    requires
        bytes.len() <= usize::MAX,
        spec_read_bundle(bytes) is Ok,
    ensures
        ({
            let v = spec_read_bundle(bytes)->Ok_0;
            let n = bytes.len() as int;
            let k = n - 31 - (v.payload_offset + v.payload_len);
            &&& n >= FOOTER_LEN
            &&& v.payload_offset + v.payload_len <= n - 31
            &&& k == spec_metadata(v.exec_relpath, v.build_uid).len()
            &&& k <= u32::MAX
            &&& bytes.subrange(n - 31, n) == spec_footer(v.payload_len, k as u32, v.payload_compression)
            &&& bytes.subrange(n - 31 - k, n - 31) == spec_metadata(v.exec_relpath, v.build_uid)
            &&& v.exec_relpath.len() > 0
            &&& !v.exec_relpath.contains('\0')
        }),
{
    lemma_auto_spec_u64_to_from_le_bytes();
    lemma_auto_spec_u32_to_from_le_bytes();
    let v = spec_read_bundle(bytes)->Ok_0;
    let n = bytes.len() as int;
    let pl_bytes = bytes.subrange(n - 16, n - 8);
    let ml_bytes = bytes.subrange(n - 8, n - 4);
    let code_bytes = bytes.subrange(n - 4, n);
    let payload_len = spec_u64_from_le_bytes(pl_bytes);
    let metadata_len = spec_u32_from_le_bytes(ml_bytes);
    let code = spec_u32_from_le_bytes(code_bytes);
    let c = spec_compression_from_code(code)->Ok_0;
    lemma_footer_code_roundtrip(c, code);
    let fo = n - 31;
    let ms = fo - metadata_len;
    let m = bytes.subrange(ms, fo);
    assert(v.payload_len == payload_len);
    assert(v.payload_offset == ms - payload_len);
    assert(v.payload_compression == c);
    assert(spec_u64_to_le_bytes(payload_len) == pl_bytes);
    assert(spec_u32_to_le_bytes(metadata_len) == ml_bytes);
    assert(spec_u32_to_le_bytes(c.spec_footer_code()) == code_bytes);
    assert(bytes.subrange(n - 31, n) =~= spec_footer(v.payload_len, metadata_len, c));
    lemma_index_of(m, 0u8);
    let i = index_of(m, 0u8)->Some_0;
    let e = m.subrange(0, i);
    let u = m.subrange(i + 1, m.len() as int);
    decode_utf8_encode_utf8(e);
    decode_utf8_encode_utf8(u);
    assert(m =~= e + seq![0u8] + u);
    assert(spec_metadata(v.exec_relpath, v.build_uid) == m);
    if v.exec_relpath.contains('\0') {
        let k = choose|k: int| 0 <= k < v.exec_relpath.len() && v.exec_relpath[k] == '\0';
        lemma_encode_utf8_zero(v.exec_relpath, k);
        let j = choose|j: int| 0 <= j < e.len() && e[j] == 0u8;
        assert(m[j] == 0u8);
    }
}

/// A packed executable is recognised as carrying a bundle, and bytes too
/// short for a footer are not.
pub proof fn lemma_packed_bundle_is_embedded(
    stub: Seq<u8>,
    payload: Seq<u8>,
    exec_relpath: Seq<char>,
    build_uid: Seq<char>,
    c: PayloadCompression,
    short: Seq<u8>,
)
    requires
        exec_relpath.len() > 0,
        !exec_relpath.contains('\0'),
        stub.len() + payload.len() <= u64::MAX,
        spec_metadata(exec_relpath, build_uid).len() <= u32::MAX,
        short.len() < FOOTER_LEN,
    ensures
        spec_embedded_bundle_present(
            stub + payload + spec_metadata(exec_relpath, build_uid) + spec_footer(
                payload.len() as u64,
                spec_metadata(exec_relpath, build_uid).len() as u32,
                c,
            ),
        ) == Ok::<bool, SfxError>(true),
        spec_embedded_bundle_present(short) == Ok::<bool, SfxError>(false),
{
    lemma_bundle_roundtrip(stub, payload, exec_relpath, build_uid, c);
}

} // verus!
