use muisnow_upload_lib::http_worker::{asset_location, prepare_upload, request_headers};
use muisnow_upload_lib::sign_worker::{
    encode_signature_base64, get_or_create_identity, get_public_key, get_public_key_fingerprint,
    hash_bytes, hash_bytes_chunked, sign_buffer, HashSession, Identity, CHUNK_SIZE,
};
use muisnow_upload_lib::utils::{digest_bytes_to_hash, HashType};
use muisnow_upload_lib::UploadError;

fn verifies(public_key_pem: &str, data: &[u8], signature: &[u8]) -> bool {
    let pkey = openssl::pkey::PKey::public_key_from_pem(public_key_pem.as_bytes()).unwrap();
    let mut verifier =
        openssl::sign::Verifier::new(openssl::hash::MessageDigest::sha256(), &pkey).unwrap();
    verifier.update(data).unwrap();
    verifier.verify(signature).unwrap()
}

#[test]
fn hashing_is_deterministic_and_chunk_size_independent() {
    let content: Vec<u8> = (0..100_000u32).map(|i| (i % 251) as u8).collect();
    let one_shot = hash_bytes(&content).unwrap();
    assert_eq!(one_shot.len(), 32);
    for chunk_size in [1usize, 7, 1024, CHUNK_SIZE, 1 << 20] {
        assert_eq!(hash_bytes_chunked(&content, chunk_size).unwrap(), one_shot);
    }
    assert_eq!(hash_bytes(&content).unwrap(), one_shot);
}

#[test]
fn digest_matches_known_sha256_values() {
    let empty = hash_bytes(b"").unwrap();
    assert_eq!(
        digest_bytes_to_hash(&empty, None),
        "e3b0c44298fc1c149afbf4c8996fb92427ae41e4649b934ca495991b7852b855"
    );
    let abc = hash_bytes(b"abc").unwrap();
    assert_eq!(
        digest_bytes_to_hash(&abc, None),
        "ba7816bf8f01cfea414140de5dae2223b00361a396177a9cb410ff61f20015ad"
    );
}

#[test]
fn hash_session_reports_bytes_and_reaches_total() {
    let content = [7u8; 10];
    let mut session = HashSession::new().unwrap();
    let mut last = 0u64;
    for chunk in content.chunks(3) {
        let now = session.absorb(chunk).unwrap();
        assert!(now >= last);
        assert!(now <= content.len() as u64);
        last = now;
    }
    assert_eq!(last, content.len() as u64);
    assert_eq!(session.bytes_hashed(), content.len() as u64);
    assert_eq!(session.finish().unwrap(), hash_bytes(&content).unwrap());
}

#[test]
fn identity_fetch_is_idempotent_on_stored_bytes() {
    let (id, created) = get_or_create_identity(None).unwrap();
    assert!(created);
    let stored = id.key_bytes().clone();

    let (a, created_a) = get_or_create_identity(Some(stored.clone())).unwrap();
    assert!(!created_a);
    let (b, created_b) = get_or_create_identity(Some(stored.clone())).unwrap();
    assert!(!created_b);

    assert_eq!(a.key_bytes(), b.key_bytes());
    assert_eq!(a.key_bytes().clone(), stored);
    assert_eq!(get_public_key(&a).unwrap(), get_public_key(&b).unwrap());
    assert_eq!(
        get_public_key_fingerprint(&a).unwrap(),
        get_public_key_fingerprint(&b).unwrap()
    );
}

#[test]
fn corrupt_key_bytes_are_rejected() {
    let err = match Identity::from_key_bytes(vec![1, 2, 3, 4]) {
        Ok(_) => panic!("corrupt key bytes were accepted"),
        Err(e) => e,
    };
    assert_eq!(err, UploadError::KeyStorageError);
    let err = match get_or_create_identity(Some(vec![])) {
        Ok(_) => panic!("an empty key file was accepted"),
        Err(e) => e,
    };
    assert_eq!(err, UploadError::KeyStorageError);
}

#[test]
fn non_rsa_key_files_are_rejected() {
    // Valid PKCS#8 bytes, but an EC key: the identity store treats a key file
    // of any non-RSA algorithm as corrupt.
    let group =
        openssl::ec::EcGroup::from_curve_name(openssl::nid::Nid::X9_62_PRIME256V1).unwrap();
    let ec = openssl::ec::EcKey::generate(&group).unwrap();
    let pkey = openssl::pkey::PKey::from_ec_key(ec).unwrap();
    let der = pkey.private_key_to_pkcs8().unwrap();
    let err = match Identity::from_key_bytes(der.clone()) {
        Ok(_) => panic!("a non-RSA key was accepted"),
        Err(e) => e,
    };
    assert_eq!(err, UploadError::KeyStorageError);
    let err = match get_or_create_identity(Some(der)) {
        Ok(_) => panic!("a non-RSA key file was accepted"),
        Err(e) => e,
    };
    assert_eq!(err, UploadError::KeyStorageError);
}

#[test]
fn generated_keys_are_2048_bit_rsa() {
    let id = Identity::generate().unwrap();
    let key = openssl::pkey::PKey::private_key_from_pkcs8(id.key_bytes()).unwrap();
    assert_eq!(key.id(), openssl::pkey::Id::RSA);
    assert_eq!(key.rsa().unwrap().size(), 2048 / 8);
}

#[test]
fn rsa_signing_is_deterministic() {
    let id = Identity::generate().unwrap();
    let first = sign_buffer(&id, b"payload").unwrap();
    let second = sign_buffer(&id, b"payload").unwrap();
    assert_eq!(first, second);
}

#[test]
fn fingerprint_is_the_hash_of_the_public_key_pem() {
    let id = Identity::generate().unwrap();
    let pem = get_public_key(&id).unwrap();
    assert!(pem.starts_with("-----BEGIN PUBLIC KEY-----"));
    let digest = hash_bytes(pem.as_bytes()).unwrap();
    let expected = digest_bytes_to_hash(&digest, Some(HashType::Fingerprint));
    assert_eq!(get_public_key_fingerprint(&id).unwrap(), expected);
}

#[test]
fn signature_verifies_against_the_right_key_only() {
    let id = Identity::generate().unwrap();
    let pem = get_public_key(&id).unwrap();
    let data = b"a known buffer";
    let signature = sign_buffer(&id, data).unwrap();

    assert!(verifies(&pem, data, &signature));
    assert!(!verifies(&pem, b"a known bufferX", &signature));
    assert!(!verifies(&pem, b"A known buffer", &signature));

    let other = Identity::generate().unwrap();
    let other_pem = get_public_key(&other).unwrap();
    assert!(!verifies(&other_pem, data, &signature));
}

#[test]
fn base64_encoding_matches_the_standard_form() {
    assert_eq!(encode_signature_base64(b"ab").unwrap(), "YWI=");
    assert_eq!(encode_signature_base64(b"abc").unwrap(), "YWJj");
    assert_eq!(encode_signature_base64(b"").unwrap(), "");
}

#[test]
fn end_to_end_upload_preparation() {
    // A fresh environment: no key file yet, so an identity is created and its
    // bytes must be persisted.
    let (id, created) = get_or_create_identity(None).unwrap();
    assert!(created);
    assert!(!id.key_bytes().is_empty());

    // A 10-byte file's content is hashed in chunks.
    let content = b"0123456789";
    assert_eq!(content.len(), 10);
    let digest = hash_bytes_chunked(content, CHUNK_SIZE).unwrap();
    let hex = digest_bytes_to_hash(&digest, None);

    // The signed request metadata.
    let token = prepare_upload(&id, &digest).unwrap();
    assert_eq!(token.file_hash, hex);
    assert_eq!(token.identify, format!("UPLOAD,{},{}", hex, token.timestamp));
    assert_eq!(token.request_type, "UPLOAD");
    assert_eq!(token.fingerprint, get_public_key_fingerprint(&id).unwrap());

    // The base64 signature decodes and verifies over the signing string.
    let raw = openssl::base64::decode_block(&token.signature).unwrap();
    let pem = get_public_key(&id).unwrap();
    assert!(verifies(&pem, token.identify.as_bytes(), &raw));

    // The four custom headers of the request.
    let headers = request_headers(&token);
    assert_eq!(headers.len(), 4);
    assert_eq!(headers[0].0, "a-pk-fingerprint");
    assert_eq!(headers[0].1, token.fingerprint);
    assert_eq!(headers[1].0, "a-type");
    assert_eq!(headers[1].1, "UPLOAD");
    assert_eq!(headers[2].0, "a-signature");
    assert_eq!(headers[2].1, token.signature);
    assert_eq!(headers[3].0, "user-agent");
    assert_eq!(headers[3].1, "Muisnow-Uploader");

    // The mocked success response yields host + path, concatenated exactly.
    assert_eq!(
        asset_location("https://cdn.example/", "abc.txt"),
        "https://cdn.example/abc.txt"
    );
}
