use pybin::codec::{compress, decompress};
use pybin::packer::{PackError, assemble_bundle, build_uid, format_uid, pack_bundle};
use pybin::runner::extractor::{ExtractError, embedded_payload, payload_archive};
use pybin::sfx::{
    BundleMetadata, PayloadCompression, SfxError, embedded_bundle_present, encode_metadata,
    footer_bytes, looks_like_missing_bundle_error, read_bundle_from_bytes,
};

#[test]
fn metadata_roundtrip_preserves_lengths() {
    let metadata = encode_metadata("bin/tool", "abc123");
    let footer = footer_bytes(42, metadata.len() as u32, PayloadCompression::Zstd);

    let mut bundle = vec![0_u8; 9];
    bundle.extend_from_slice(&[1_u8; 42]);
    bundle.extend_from_slice(&metadata);
    bundle.extend_from_slice(&footer);

    let parsed = read_bundle_from_bytes(&bundle).expect("read bundle");
    assert_eq!(
        parsed,
        BundleMetadata {
            exec_relpath: "bin/tool".to_string(),
            build_uid: "abc123".to_string(),
            payload_offset: 9,
            payload_len: 42,
            payload_compression: PayloadCompression::Zstd,
        }
    );
}

#[test]
fn missing_footer_is_not_treated_as_embedded_bundle() {
    assert!(!embedded_bundle_present(b"plain executable body").expect("probe bundle"));
}

#[test]
fn encode_metadata_separates_entrypoint_and_uid_with_nul() {
    assert_eq!(encode_metadata("bin/x", "u1"), b"bin/x\0u1".to_vec());
    assert_eq!(encode_metadata("é", ""), vec![0xc3, 0xa9, 0]);
}

#[test]
fn footer_layout_is_magic_then_little_endian_fields() {
    let footer = footer_bytes(0x0102_0304_0506_0708, 0x0a0b_0c0d, PayloadCompression::Gzip);
    assert_eq!(footer.len(), 31);
    assert_eq!(&footer[..15], b"PYBIN_SFX_V1__\0");
    assert_eq!(&footer[15..23], &[8, 7, 6, 5, 4, 3, 2, 1]);
    assert_eq!(&footer[23..27], &[0x0d, 0x0c, 0x0b, 0x0a]);
    assert_eq!(&footer[27..31], &[1, 0, 0, 0]);
}

#[test]
fn compression_codes_and_names() {
    assert_eq!(PayloadCompression::Gzip.footer_code(), 1);
    assert_eq!(PayloadCompression::Zstd.footer_code(), 2);
    assert_eq!(PayloadCompression::Gzip.as_str(), "gzip");
    assert_eq!(PayloadCompression::Zstd.as_str(), "zstd");
    assert_eq!(PayloadCompression::default(), PayloadCompression::Zstd);
    assert_eq!(PayloadCompression::from_footer_code(1), Ok(PayloadCompression::Gzip));
    assert_eq!(PayloadCompression::from_footer_code(2), Ok(PayloadCompression::Zstd));
    for c in [PayloadCompression::Gzip, PayloadCompression::Zstd] {
        assert_eq!(PayloadCompression::from_footer_code(c.footer_code()), Ok(c));
    }
}

#[test]
fn unknown_compression_code_is_refused() {
    let error = PayloadCompression::from_footer_code(7).unwrap_err();
    assert_eq!(error, SfxError::UnknownCompression(7));
    assert_eq!(
        error.to_string(),
        "packed executable used an unknown payload compression code `7`"
    );
    let mut bundle = b"stub".to_vec();
    bundle.extend_from_slice(&encode_metadata("a", ""));
    let mut footer = footer_bytes(0, 2, PayloadCompression::Gzip);
    footer[27] = 42;
    bundle.extend_from_slice(&footer);
    assert_eq!(read_bundle_from_bytes(&bundle), Err(SfxError::UnknownCompression(42)));
    assert_eq!(embedded_bundle_present(&bundle), Err(SfxError::UnknownCompression(42)));
}

fn bundle_with(metadata: &[u8], payload_len: u64, metadata_len: u32) -> Vec<u8> {
    let mut bundle = b"xy".to_vec();
    bundle.extend_from_slice(metadata);
    bundle.extend_from_slice(&footer_bytes(payload_len, metadata_len, PayloadCompression::Gzip));
    bundle
}

#[test]
fn every_read_error_has_an_input() {
    assert_eq!(read_bundle_from_bytes(b"short"), Err(SfxError::InvalidFooter));
    assert_eq!(read_bundle_from_bytes(&[0u8; 40]), Err(SfxError::InvalidFooter));
    assert_eq!(
        read_bundle_from_bytes(&bundle_with(b"a\0b", 0, 100)),
        Err(SfxError::InvalidMetadataLength)
    );
    assert_eq!(
        read_bundle_from_bytes(&bundle_with(b"a\0b", 3, 3)),
        Err(SfxError::InvalidPayloadLength)
    );
    assert_eq!(
        read_bundle_from_bytes(&bundle_with(b"ab", 0, 2)),
        Err(SfxError::MissingSeparator)
    );
    assert_eq!(
        read_bundle_from_bytes(&bundle_with(&[0xff, 0, b'b'], 0, 3)),
        Err(SfxError::EntrypointNotUtf8)
    );
    assert_eq!(
        read_bundle_from_bytes(&bundle_with(&[b'a', 0, 0xff], 0, 3)),
        Err(SfxError::BuildUidNotUtf8)
    );
    assert_eq!(
        read_bundle_from_bytes(&bundle_with(b"\0uid", 0, 4)),
        Err(SfxError::MissingEntrypoint)
    );
    assert_eq!(
        SfxError::InvalidFooter.to_string(),
        "packed executable did not contain a valid pybin footer"
    );
    assert_eq!(
        SfxError::MissingEntrypoint.to_string(),
        "packed metadata did not include an entrypoint"
    );
}

#[test]
fn build_uid_may_hold_nul_bytes() {
    let bundle = bundle_with(b"a\0b\0c", 2, 5);
    let parsed = read_bundle_from_bytes(&bundle).expect("read");
    assert_eq!(parsed.exec_relpath, "a");
    assert_eq!(parsed.build_uid, "b\0c");
    assert_eq!(parsed.payload_offset, 0);
    assert_eq!(parsed.payload_len, 2);
}

#[test]
fn only_the_footer_errors_mean_missing_bundle() {
    assert!(looks_like_missing_bundle_error(
        "packed executable was too small to contain a footer"
    ));
    assert!(looks_like_missing_bundle_error(
        "packed executable did not contain a valid pybin footer"
    ));
    assert!(!looks_like_missing_bundle_error(
        "packed metadata did not include an entrypoint"
    ));
    assert!(!looks_like_missing_bundle_error(""));
}

#[test]
fn packed_bundle_is_detected_and_unpacks_to_its_archive() {
    for compression in [PayloadCompression::Gzip, PayloadCompression::Zstd] {
        let stub = b"#!stub executable bytes".to_vec();
        let archive = b"tar archive bytes, repeated repeated repeated".to_vec();
        let bundle = pack_bundle(&stub, &archive, "bin/hello", "beef", compression).expect("pack");
        assert!(embedded_bundle_present(&bundle).expect("probe"));
        let meta = read_bundle_from_bytes(&bundle).expect("read");
        assert_eq!(meta.exec_relpath, "bin/hello");
        assert_eq!(meta.build_uid, "beef");
        assert_eq!(meta.payload_offset, stub.len() as u64);
        assert_eq!(meta.payload_compression, compression);
        let payload = embedded_payload(&bundle, &meta).expect("payload");
        assert_eq!(payload.len() as u64, meta.payload_len);
        assert_ne!(payload, &archive[..]);
        assert_eq!(payload_archive(&bundle, &meta).expect("archive"), archive);
    }
}

#[test]
fn codecs_roundtrip_and_refuse_garbage() {
    let data = b"some payload".to_vec();
    for compression in [PayloadCompression::Gzip, PayloadCompression::Zstd] {
        let packed = compress(compression, &data).expect("compress");
        assert_ne!(packed, data);
        assert_eq!(decompress(compression, &packed).expect("decompress"), data);
        assert!(decompress(compression, b"not compressed at all").is_err());
    }
}

#[test]
fn assembled_bundle_is_stub_payload_metadata_footer() {
    let bundle = assemble_bundle(b"S", b"PP", "e", "u", PayloadCompression::Gzip).expect("assemble");
    let mut expected = b"SPP".to_vec();
    expected.extend_from_slice(b"e\0u");
    expected.extend_from_slice(&footer_bytes(2, 3, PayloadCompression::Gzip));
    assert_eq!(bundle, expected);
}

#[test]
fn payload_outside_the_file_is_refused() {
    let meta = BundleMetadata {
        exec_relpath: "a".to_string(),
        build_uid: String::new(),
        payload_offset: 4,
        payload_len: 10,
        payload_compression: PayloadCompression::Gzip,
    };
    assert_eq!(embedded_payload(b"0123456789", &meta), Err(ExtractError::PayloadOutOfBounds));
    let overflowing = BundleMetadata { payload_offset: u64::MAX, payload_len: 2, ..meta.clone() };
    assert_eq!(
        embedded_payload(b"0123", &overflowing),
        Err(ExtractError::PayloadLengthOverflow)
    );
    let inside = BundleMetadata { payload_offset: 2, payload_len: 3, ..meta };
    assert_eq!(embedded_payload(b"0123456789", &inside), Ok(&b"234"[..]));
    assert_eq!(
        ExtractError::PayloadOutOfBounds.to_string(),
        "embedded payload did not fit inside the packed executable"
    );
    match payload_archive(b"0123456789", &inside) {
        Err(ExtractError::Decompression(_)) => {}
        other => panic!("expected a decompression error, got {other:?}"),
    }
}

#[test]
fn build_uid_is_hex_time_then_hex_pid() {
    assert_eq!(format_uid(0x1f, 0xab), "1fab");
    assert_eq!(format_uid(0, 0), "00");
    assert_eq!(format_uid(255, 16), "ff10");
    assert_ne!(format_uid(1, 2), format_uid(2, 2));
    assert_eq!(PackError::MetadataTooLarge.to_string(), "packed metadata is too large for the footer");
}

#[test]
fn build_uids_are_non_empty_lower_case_hex() {
    for (time, pid) in [(0u128, 0u32), (u128::MAX, u32::MAX), (0xdead_beef, 4242)] {
        let uid = format_uid(time, pid);
        assert!(!uid.is_empty());
        assert!(uid.chars().all(|ch| ch.is_ascii_digit() || ('a'..='f').contains(&ch)));
    }
    assert_eq!(build_uid(true, 0x1f, 0xab), "1fab");
    assert_eq!(build_uid(false, 0x1f, 0xab), "");
}

#[test]
fn a_bundle_that_reads_ends_with_its_metadata_and_footer() {
    let mut bytes = b"stub".to_vec();
    bytes.extend_from_slice(b"payload!");
    bytes.extend_from_slice(&encode_metadata("bin/app", "u1"));
    bytes.extend_from_slice(&footer_bytes(8, 10, PayloadCompression::Gzip));
    let m = read_bundle_from_bytes(&bytes).expect("read");
    let n = bytes.len();
    let k = n - 31 - (m.payload_offset + m.payload_len) as usize;
    assert_eq!(k, 10);
    assert_eq!(
        bytes[n - 31..].to_vec(),
        footer_bytes(m.payload_len, k as u32, m.payload_compression)
    );
    assert_eq!(bytes[n - 31 - k..n - 31].to_vec(), encode_metadata(&m.exec_relpath, &m.build_uid));
    assert!(!m.exec_relpath.is_empty() && !m.exec_relpath.contains('\0'));
}

#[test]
fn one_process_gets_distinct_uids_at_distinct_times() {
    let pid = 4242;
    let first = build_uid(true, 1_700_000_000_000_000_000, pid);
    let second = build_uid(true, 1_700_000_000_000_000_001, pid);
    assert_ne!(first, second);
    assert_ne!(format_uid(0x1, 0x23), format_uid(0x12, 0x23));
}
