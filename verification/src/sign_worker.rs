//! The cryptographic identity subsystem: the persisted keypair, the public
//! key and its fingerprint, detached signatures, and the chunked digest
//! engine.
use vstd::prelude::*;
use vstd::slice::slice_subrange;
use crate::utils::{digest_bytes_to_hash, fingerprint_hex, HashType};
use crate::UploadError;

verus! {

/// How many bytes of a file are read and hashed at a time.
pub const CHUNK_SIZE: usize = 16 * 1024;

/// The SHA-256 digest of a byte sequence, as openssl computes it. Stating the
/// algorithm itself would only imitate the outside code, so the digest bytes
/// are given this name instead; both the one-shot and the incremental hashing
/// paths return exactly it.
pub uninterp spec fn sha256_of(bytes: Seq<u8>) -> Seq<u8>;

/// Whether openssl's PKey::private_key_from_pkcs8 accepts the bytes as an
/// unencrypted DER PKCS#8 private key whose algorithm (PKeyRef::id) is RSA.
/// Parsing is a function of the bytes alone. Only RSA keys are admitted into
/// the identity store: the fixed signing scheme is deterministic for them
/// alone, and a key of any other algorithm in the key file is treated as a
/// corrupt key file.
pub uninterp spec fn valid_rsa_pkcs8(bytes: Seq<u8>) -> bool;

/// The size in bits of the RSA modulus of the key held in PKCS#8 bytes, as
/// openssl reads it back: a function of the key bytes alone.
pub uninterp spec fn rsa_modulus_bits(key: Seq<u8>) -> nat;

/// The PEM text of the public key that openssl derives from a stored PKCS#8
/// private key (private_key_from_pkcs8 followed by public_key_to_pem): a
/// function of the key bytes alone.
pub uninterp spec fn pem_of(key: Seq<u8>) -> Seq<char>;

/// The RSA PKCS#1 v1.5 / SHA-256 detached signature that openssl's Signer
/// produces over a message with an RSA key: that scheme is deterministic, so
/// the signature is a function of the key bytes and the message alone. The
/// name is only ever applied to keys that satisfy `valid_rsa_pkcs8`.
pub uninterp spec fn rsa_sha256_signature(key: Seq<u8>, data: Seq<u8>) -> Seq<u8>;

/// The base64 text that openssl's base64::encode_block gives to a byte
/// sequence: a function of the bytes alone.
pub uninterp spec fn base64_of(bytes: Seq<u8>) -> Seq<char>;

/// The fingerprint of the public key derived from stored key bytes: the
/// SHA-256 digest of the UTF-8 bytes of the public key's PEM text, rendered
/// as colon-delimited uppercase hex pairs.
pub open spec fn fingerprint_spec(key: Seq<u8>) -> Seq<char> {
    fingerprint_hex(sha256_of(vstd::utf8::encode_utf8(pem_of(key))))
}

/// An incremental SHA-256 hasher. The digest engine feeds it chunk by chunk,
/// so a whole file never has to sit in memory.
#[verifier::external_body]
pub struct Sha256Stream {
    inner: openssl::hash::Hasher,
}

/// The bytes a hasher has been fed so far, oldest first.
pub uninterp spec fn absorbed(h: Sha256Stream) -> Seq<u8>;

impl Sha256Stream {
    /// Relies on openssl::hash::Hasher::new with MessageDigest::sha256: a
    /// fresh hasher that has been fed nothing. Setting up the SHA-256 context
    /// fails only on resource exhaustion inside openssl, which this library
    /// does not model, so success is promised; the error arm below only keeps
    /// the process from panicking if it ever happens.
    #[verifier::external_body]
    pub(crate) fn new() -> (r: Result<Sha256Stream, UploadError>)
        ensures
            r is Ok,
            r matches Ok(h) ==> absorbed(h) == Seq::<u8>::empty(),
    {
        match openssl::hash::Hasher::new(openssl::hash::MessageDigest::sha256()) {
            Ok(inner) => Ok(Sha256Stream { inner }),
            Err(_) => Err(UploadError::SigningError),
        }
    }

    /// Relies on openssl::hash::Hasher::update: feeds the chunk to the
    /// hasher, extending what it has absorbed. As with `new`, the digest
    /// update fails only on resource exhaustion, which is not modelled.
    #[verifier::external_body]
    pub(crate) fn update(&mut self, chunk: &[u8]) -> (r: Result<(), UploadError>)
        ensures
            r is Ok,
            absorbed(*final(self)) == absorbed(*old(self)) + chunk@,
    {
        self.inner.update(chunk).map_err(|_| UploadError::SigningError)
    }

    /// Relies on openssl::hash::Hasher::finish: the SHA-256 digest — 32
    /// bytes — of everything the hasher was fed. As with `new`, finalizing
    /// fails only on resource exhaustion, which is not modelled.
    #[verifier::external_body]
    pub(crate) fn finish(&mut self) -> (r: Result<Vec<u8>, UploadError>)
        ensures
            r is Ok,
            r matches Ok(d) ==> d@ == sha256_of(absorbed(*old(self))) && d@.len() == 32,
    {
        match self.inner.finish() {
            Ok(digest) => Ok(digest.to_vec()),
            Err(_) => Err(UploadError::SigningError),
        }
    }
}

/// One in-progress digest computation over a byte stream, with the running
/// count of bytes hashed so far for the progress observer.
pub struct HashSession {
    stream: Sha256Stream,
    hashed: u64,
}

impl HashSession {
    /// The bytes fed into this session so far.
    pub closed spec fn content(&self) -> Seq<u8> {
        absorbed(self.stream)
    }

    /// The byte counter agrees with what was fed in.
    pub closed spec fn wf(&self) -> bool {
        self.hashed == self.content().len()
    }

    /// How many bytes have been hashed so far.
    pub fn bytes_hashed(&self) -> (r: u64)
        ensures
            self.wf() ==> r == self.content().len(),
    {
        self.hashed
    }

    /// Opens a fresh session that has hashed nothing.
    pub fn new() -> (r: Result<HashSession, UploadError>)
        ensures
            r is Ok,
            r matches Ok(s) ==> s.wf() && s.content() == Seq::<u8>::empty(),
    {
        let stream = Sha256Stream::new()?;
        Ok(HashSession { stream, hashed: 0 })
    }

    /// Feeds one chunk, returning the new count of bytes hashed so far — the
    /// value reported to the progress observer after each chunk.
    pub fn absorb(&mut self, chunk: &[u8]) -> (r: Result<u64, UploadError>)
        requires
            old(self).wf(),
            old(self).content().len() + chunk@.len() <= u64::MAX,
        ensures
            r is Ok,
            r matches Ok(h) ==> final(self).wf() && final(self).content() == old(self).content()
                + chunk@ && h == final(self).content().len(),
    {
        self.stream.update(chunk)?;
        self.hashed = self.hashed + chunk.len() as u64;
        Ok(self.hashed)
    }

    /// Finalizes the session: the SHA-256 digest of everything fed in. The
    /// partial hash state is consumed; no partial digest is ever returned.
    pub fn finish(&mut self) -> (r: Result<Vec<u8>, UploadError>)
        ensures
            r is Ok,
            r matches Ok(d) ==> d@ == sha256_of(old(self).content()) && d@.len() == 32,
    {
        self.stream.finish()
    }
}

/// Hashes an in-memory buffer in one shot (used for short inputs such as the
/// signing string, not for files).
pub fn hash_bytes(data: &[u8]) -> (r: Result<Vec<u8>, UploadError>)
    ensures
        r is Ok,
        r matches Ok(d) ==> d@ == sha256_of(data@) && d@.len() == 32,
{
    let mut session = HashSession::new()?;
    let n: usize = data.len();
    let chunk = slice_subrange(data, 0, n);
    let _ = session.absorb(chunk)?;
    proof {
        assert(data@.subrange(0, n as int) =~= data@);
        assert(Seq::<u8>::empty() + data@ =~= data@);
    }
    session.finish()
}

/// Hashes a buffer in fixed-size chunks, exactly as a file is hashed. The
/// chunk size affects only progress granularity: the digest is that of the
/// whole content, whatever the chunking.
pub fn hash_bytes_chunked(data: &[u8], chunk_size: usize) -> (r: Result<Vec<u8>, UploadError>)
    requires
        chunk_size >= 1,
    ensures
        r is Ok,
        r matches Ok(d) ==> d@ == sha256_of(data@) && d@.len() == 32,
{
    let mut session = HashSession::new()?;
    let n = data.len();
    let mut i: usize = 0;
    while i < n
        invariant
            i <= n,
            n == data@.len(),
            chunk_size >= 1,
            session.wf(),
            session.content() == data@.take(i as int),
        decreases n - i,
    {
        let end = if chunk_size < n - i {
            i + chunk_size
        } else {
            n
        };
        let chunk = slice_subrange(data, i, end);
        let _ = session.absorb(chunk)?;
        proof {
            assert(data@.take(i as int) + data@.subrange(i as int, end as int) =~= data@.take(
                end as int,
            ));
        }
        i = end;
    }
    proof {
        assert(data@.take(n as int) =~= data@);
    }
    session.finish()
}

/// The digest of a byte sequence depends on the content alone: two hashing
/// runs over equal bytes — whatever chunk size each used, since neither
/// `hash_bytes` nor `hash_bytes_chunked` lets the chunking reach the stated
/// digest — give the identical result.
pub proof fn lemma_digest_deterministic(b1: Seq<u8>, b2: Seq<u8>)
    requires
        b1 == b2,
    ensures
        sha256_of(b1) == sha256_of(b2),
{
}

/// The chunks fed to a hash session, in order, as one byte sequence.
pub open spec fn concat_chunks(chunks: Seq<Seq<u8>>) -> Seq<u8>
    decreases chunks.len(),
{
    if chunks.len() == 0 {
        Seq::empty()
    } else {
        concat_chunks(chunks.drop_last()) + chunks.last()
    }
}

/// After each chunk a hash session reports the byte count of everything fed
/// so far (`absorb`'s contract). Over a whole run split into chunks, the
/// count reported after the first `k` chunks therefore never decreases from
/// one chunk to the next and never exceeds the whole input's length.
pub proof fn lemma_hash_progress_monotonic(chunks: Seq<Seq<u8>>, k: int)
    requires
        0 <= k <= chunks.len(),
    ensures
        concat_chunks(chunks.take(k)).len() <= concat_chunks(chunks).len(),
        0 < k ==> concat_chunks(chunks.take(k - 1)).len() <= concat_chunks(chunks.take(k)).len(),
    decreases chunks.len() - k,
{
    if k < chunks.len() {
        lemma_hash_progress_monotonic(chunks, k + 1);
        assert(chunks.take(k + 1).drop_last() =~= chunks.take(k));
        assert(chunks.take(k + 1).last() == chunks[k]);
    } else {
        assert(chunks.take(k) =~= chunks);
    }
    if 0 < k {
        assert(chunks.take(k).drop_last() =~= chunks.take(k - 1));
        assert(chunks.take(k).last() == chunks[k - 1]);
    }
}

/// When the chunks fed to a session cover the whole input, the count reported
/// after the last chunk is exactly the input's length: the operation is then
/// complete.
pub proof fn lemma_hash_progress_completes(chunks: Seq<Seq<u8>>, input: Seq<u8>)
    requires
        concat_chunks(chunks) == input,
    ensures
        concat_chunks(chunks).len() == input.len(),
{
}

/// Relies on openssl's Rsa::generate(2048) (a fresh RSA keypair with a
/// modulus of the requested size), PKey::from_rsa and
/// PKey::private_key_to_pkcs8: an unencrypted DER PKCS#8 container that
/// private_key_from_pkcs8 parses back as a 2048-bit RSA key. The key comes
/// from the system's randomness, so nothing else is promised of the bytes;
/// generation itself may fail (entropy exhaustion), so success is not
/// promised either.
#[verifier::external_body]
fn generate_pkcs8() -> (r: Result<Vec<u8>, UploadError>)
    ensures
        r matches Ok(der) ==> valid_rsa_pkcs8(der@) && rsa_modulus_bits(der@) == 2048,
        r matches Err(e) ==> e == UploadError::KeyStorageError,
{
    let rsa = openssl::rsa::Rsa::generate(2048).map_err(|_| UploadError::KeyStorageError)?;
    let key = openssl::pkey::PKey::from_rsa(rsa).map_err(|_| UploadError::KeyStorageError)?;
    key.private_key_to_pkcs8().map_err(|_| UploadError::KeyStorageError)
}

/// Relies on openssl's PKey::private_key_from_pkcs8 and PKeyRef::id: whether
/// the bytes parse as an unencrypted DER PKCS#8 private key whose algorithm
/// is RSA.
#[verifier::external_body]
fn pkcs8_parses_as_rsa(bytes: &[u8]) -> (r: bool)
    ensures
        r == valid_rsa_pkcs8(bytes@),
{
    match openssl::pkey::PKey::private_key_from_pkcs8(bytes) {
        Ok(key) => key.id() == openssl::pkey::Id::RSA,
        Err(_) => false,
    }
}

/// Relies on openssl's PKey::private_key_from_pkcs8 and public_key_to_pem,
/// with String::from_utf8 on the resulting PEM bytes: the PEM text of the
/// public key derived from the stored key bytes. For bytes holding an RSA
/// key, parsing succeeds, PEM-encoding the derived public key succeeds
/// (allocation failure aside, which is not modelled), and the PEM text is
/// ASCII, so success is promised there.
#[verifier::external_body]
fn public_key_pem(key: &[u8]) -> (r: Result<String, UploadError>)
    ensures
        valid_rsa_pkcs8(key@) ==> r is Ok,
        r matches Ok(s) ==> s@ == pem_of(key@),
        r matches Err(e) ==> e == UploadError::KeyStorageError,
{
    let key = openssl::pkey::PKey::private_key_from_pkcs8(key).map_err(
        |_| UploadError::KeyStorageError,
    )?;
    let pem = key.public_key_to_pem().map_err(|_| UploadError::KeyStorageError)?;
    String::from_utf8(pem).map_err(|_| UploadError::KeyStorageError)
}

/// Relies on openssl's PKey::private_key_from_pkcs8 and sign::Signer with
/// MessageDigest::sha256: the RSA PKCS#1 v1.5 / SHA-256 detached signature
/// over the message. Only RSA keys are admitted, for two reasons: the scheme
/// is deterministic for them alone (an EC or DSA key signs with a random
/// nonce, so its signature is no function of the arguments), and for an RSA
/// key the signer setup and the signing succeed (allocation failure aside,
/// which is not modelled), so success is promised.
#[verifier::external_body]
fn sign_sha256(key: &[u8], data: &[u8]) -> (r: Result<Vec<u8>, UploadError>)
    requires
        valid_rsa_pkcs8(key@),
    ensures
        r is Ok,
        r matches Ok(sig) ==> sig@ == rsa_sha256_signature(key@, data@),
{
    let key = openssl::pkey::PKey::private_key_from_pkcs8(key).map_err(
        |_| UploadError::SigningError,
    )?;
    let mut signer = openssl::sign::Signer::new(openssl::hash::MessageDigest::sha256(), &key)
        .map_err(|_| UploadError::SigningError)?;
    signer.update(data).map_err(|_| UploadError::SigningError)?;
    signer.sign_to_vec().map_err(|_| UploadError::SigningError)
}

/// Relies on openssl::base64::encode_block: the standard base64 text of the
/// bytes, promised for every input below the guard. Longer inputs are
/// declined rather than passed on, since encode_block panics when the input
/// or output length overflows a C integer.
#[verifier::external_body]
fn base64_encode_bytes(data: &[u8]) -> (r: Option<String>)
    ensures
        data@.len() <= 0x4000_0000 ==> r is Some,
        r matches Some(s) ==> s@ == base64_of(data@),
{
    if data.len() > 0x4000_0000 {
        None
    } else {
        Some(openssl::base64::encode_block(data))
    }
}

/// Encodes a detached signature (or any short buffer) as base64 text for
/// transport. Only absurdly long inputs are refused.
pub fn encode_signature_base64(data: &[u8]) -> (r: Result<String, UploadError>)
    ensures
        data@.len() <= 0x4000_0000 ==> r is Ok,
        r matches Ok(s) ==> s@ == base64_of(data@),
        r matches Err(e) ==> e == UploadError::SigningError,
{
    match base64_encode_bytes(data) {
        Some(s) => Ok(s),
        None => Err(UploadError::SigningError),
    }
}

/// The client's asymmetric identity: exactly one RSA private key in PKCS#8
/// serialization, created once and loaded unchanged thereafter. The key bytes
/// never leave the store except through `key_bytes`, which the caller
/// persists; all signing goes through `sign_buffer`.
pub struct Identity {
    pkcs8: Vec<u8>,
}

impl Identity {
    /// The stored key bytes: an unencrypted DER PKCS#8 RSA private key.
    pub closed spec fn key_der(&self) -> Seq<u8> {
        self.pkcs8@
    }

    /// Every identity holds bytes that parse as an RSA PKCS#8 private key:
    /// the constructors admit nothing else.
    #[verifier::type_invariant]
    closed spec fn wf(self) -> bool {
        valid_rsa_pkcs8(self.pkcs8@)
    }

    /// Generates a fresh 2048-bit RSA keypair. Irreversible identity
    /// creation: the caller must persist `key_bytes` so later runs load this
    /// same key. Fails only when key generation itself fails.
    pub fn generate() -> (r: Result<Identity, UploadError>)
        ensures
            r matches Ok(id) ==> valid_rsa_pkcs8(id.key_der()) && rsa_modulus_bits(id.key_der())
                == 2048,
            r matches Err(e) ==> e == UploadError::KeyStorageError,
    {
        let der = generate_pkcs8()?;
        Ok(Identity { pkcs8: der })
    }

    /// Loads the identity from previously persisted key bytes, accepting them
    /// exactly when they parse as an RSA PKCS#8 private key and keeping them
    /// bit-identical. A key file of any other algorithm is a corrupt key
    /// file.
    pub fn from_key_bytes(bytes: Vec<u8>) -> (r: Result<Identity, UploadError>)
        ensures
            r matches Ok(id) ==> id.key_der() == bytes@,
            r is Ok <==> valid_rsa_pkcs8(bytes@),
            r matches Err(e) ==> e == UploadError::KeyStorageError,
    {
        if pkcs8_parses_as_rsa(bytes.as_slice()) {
            Ok(Identity { pkcs8: bytes })
        } else {
            Err(UploadError::KeyStorageError)
        }
    }

    /// The serialized private key, for persisting to the key file.
    pub fn key_bytes(&self) -> (r: &Vec<u8>)
        ensures
            r@ == self.key_der(),
            valid_rsa_pkcs8(self.key_der()),
    {
        proof {
            use_type_invariant(self);
        }
        &self.pkcs8
    }
}

/// The key lifecycle decision: `stored` is the content of the key file if one
/// exists. An existing key is loaded bit-identically and nothing must be
/// written back; with no file a fresh 2048-bit RSA keypair is created and the
/// caller must persist `key_bytes` (the returned flag says a file must be
/// written).
pub fn get_or_create_identity(stored: Option<Vec<u8>>) -> (r: Result<(Identity, bool), UploadError>)
    ensures
        r matches Ok(p) ==> p.1 == (stored is None),
        stored matches Some(bytes) ==> (r matches Ok(p) ==> p.0.key_der() == bytes@),
        stored matches Some(bytes) ==> (r is Ok <==> valid_rsa_pkcs8(bytes@)),
        stored is None ==> (r matches Ok(p) ==> rsa_modulus_bits(p.0.key_der()) == 2048),
        r matches Err(e) ==> e == UploadError::KeyStorageError,
{
    match stored {
        Some(bytes) => {
            let id = Identity::from_key_bytes(bytes)?;
            Ok((id, false))
        },
        None => {
            let id = Identity::generate()?;
            Ok((id, true))
        },
    }
}

/// The PEM text of the public key derived from the stored keypair: a pure
/// function of the key bytes, so two fetches of the same identity answer
/// bit-identically.
pub fn get_public_key(identity: &Identity) -> (r: Result<String, UploadError>)
    ensures
        r is Ok,
        r matches Ok(s) ==> s@ == pem_of(identity.key_der()),
{
    proof {
        use_type_invariant(identity);
    }
    public_key_pem(identity.key_bytes().as_slice())
}

/// The fingerprint of the public key: the SHA-256 digest of its PEM text,
/// rendered as colon-delimited uppercase hex pairs. A pure function of the
/// key bytes, like `get_public_key`.
pub fn get_public_key_fingerprint(identity: &Identity) -> (r: Result<String, UploadError>)
    ensures
        r is Ok,
        r matches Ok(s) ==> s@ == fingerprint_spec(identity.key_der()),
{
    proof {
        use_type_invariant(identity);
    }
    let pem = public_key_pem(identity.key_bytes().as_slice())?;
    let digest = hash_bytes(pem.as_str().as_bytes())?;
    let fingerprint = digest_bytes_to_hash(digest.as_slice(), Some(HashType::Fingerprint));
    Ok(fingerprint)
}

/// Signs an arbitrary buffer with the stored private key: an RSA PKCS#1 v1.5
/// / SHA-256 detached signature, returned as raw bytes.
pub fn sign_buffer(identity: &Identity, data: &[u8]) -> (r: Result<Vec<u8>, UploadError>)
    ensures
        r is Ok,
        r matches Ok(sig) ==> sig@ == rsa_sha256_signature(identity.key_der(), data@),
{
    proof {
        use_type_invariant(identity);
    }
    sign_sha256(identity.key_bytes().as_slice(), data)
}

/// Fetching the identity twice from the same stored key bytes is idempotent:
/// the public key text, the fingerprint and every signature are functions of
/// those bytes alone, so both fetches answer bit-identically (and a stored
/// key is never written back: see `get_or_create_identity`).
pub proof fn lemma_identity_fetch_idempotent(a: Identity, b: Identity, data: Seq<u8>)
    requires
        a.key_der() == b.key_der(),
    ensures
        pem_of(a.key_der()) == pem_of(b.key_der()),
        fingerprint_spec(a.key_der()) == fingerprint_spec(b.key_der()),
        rsa_sha256_signature(a.key_der(), data) == rsa_sha256_signature(b.key_der(), data),
{
}

} // verus!
