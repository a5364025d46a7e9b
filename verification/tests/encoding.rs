use muisnow_upload_lib::config::get_config;
use muisnow_upload_lib::http_worker::{asset_location, build_upload_url, Progress};
use muisnow_upload_lib::utils::{
    build_identify_string, create_identify_string, digest_bytes_to_hash, get_dir_path, u64_to_dec,
    HashType,
};

#[test]
fn default_encoding_is_compact_lowercase_hex() {
    let digest = [0xdeu8, 0xad, 0xbe, 0xef];
    assert_eq!(digest_bytes_to_hash(&digest, None), "deadbeef");
    assert_eq!(digest_bytes_to_hash(&digest, Some(HashType::Deafult)), "deadbeef");
    assert_eq!(digest_bytes_to_hash(&[], None), "");
    assert_eq!(digest_bytes_to_hash(&[0x00, 0x0f, 0xa0], None), "000fa0");
}

#[test]
fn fingerprint_encoding_is_colon_delimited_uppercase_hex() {
    let digest = [0xdeu8, 0xad, 0xbe, 0xef];
    assert_eq!(digest_bytes_to_hash(&digest, Some(HashType::Fingerprint)), "DE:AD:BE:EF");
    assert_eq!(digest_bytes_to_hash(&[], Some(HashType::Fingerprint)), "");
    assert_eq!(digest_bytes_to_hash(&[0x5a], Some(HashType::Fingerprint)), "5A");
}

#[test]
fn encoding_lengths_match_the_digest_length() {
    for n in [0usize, 1, 2, 16, 32] {
        let digest: Vec<u8> = (0..n as u8).collect();
        let plain = digest_bytes_to_hash(&digest, None);
        assert_eq!(plain.len(), 2 * n);
        assert!(plain.chars().all(|c| c.is_ascii_hexdigit() && !c.is_ascii_uppercase()));
        let fp = digest_bytes_to_hash(&digest, Some(HashType::Fingerprint));
        if n == 0 {
            assert_eq!(fp.len(), 0);
        } else {
            assert_eq!(fp.len(), 3 * n - 1);
        }
        assert!(fp.chars().all(|c| c == ':' || (c.is_ascii_hexdigit() && !c.is_ascii_lowercase())));
    }
}

#[test]
fn decimal_rendering_is_exact() {
    assert_eq!(u64_to_dec(0), "0");
    assert_eq!(u64_to_dec(7), "7");
    assert_eq!(u64_to_dec(1700000000), "1700000000");
    assert_eq!(u64_to_dec(u64::MAX), "18446744073709551615");
}

#[test]
fn signing_string_format_is_exact() {
    let s = build_identify_string("UPLOAD", "deadbeef", 1700000000);
    assert_eq!(s, "UPLOAD,deadbeef,1700000000");
}

#[test]
fn captured_timestamp_matches_the_signing_string() {
    let r = create_identify_string("UPLOAD", "deadbeef");
    assert_eq!(r.identify, format!("UPLOAD,deadbeef,{}", r.timestamp));
}

#[test]
fn upload_url_and_asset_location_concatenate_exactly() {
    assert_eq!(build_upload_url("https", "example.org"), "https://example.org/api/staff");
    assert_eq!(asset_location("https://cdn.example/", "abc.txt"), "https://cdn.example/abc.txt");
    assert_eq!(asset_location("host", "path"), "hostpath");
}

#[test]
fn dir_path_joins_with_separator() {
    assert_eq!(get_dir_path("/opt/tool", "key.private.pkcs8"), "/opt/tool/key.private.pkcs8");
}

#[test]
fn config_reflects_verbosity() {
    assert!(get_config(false).invisible);
    assert!(!get_config(true).invisible);
}

#[test]
fn progress_is_monotonic_clamped_and_completes() {
    let mut p = Progress::new(10);
    let mut last = 0u64;
    for chunk in [3u64, 3, 3, 3] {
        let now = p.advance(chunk);
        assert!(now >= last);
        assert!(now <= 10);
        last = now;
    }
    assert_eq!(last, 10);
    assert!(p.is_complete());

    let mut q = Progress::new(5);
    assert_eq!(q.advance(0), 0);
    assert!(!q.is_complete());
    assert_eq!(q.advance(100), 5);
    assert!(q.is_complete());
}
