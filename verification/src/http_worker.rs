//! The streaming upload pipeline: request URL and metadata construction,
//! the clamped byte counter behind the progress observer, and the asset
//! location returned by the server.
use vstd::prelude::*;
use crate::sign_worker::{
    base64_of, fingerprint_spec, get_public_key_fingerprint, rsa_sha256_signature, sign_buffer,
    encode_signature_base64, Identity,
};
use crate::utils::{create_identify_string, digest_bytes_to_hash, lower_hex, signing_string};
use crate::UploadError;

verus! {

/// How many bytes of a file are read and sent at a time.
pub const UPLOAD_CHUNK_SIZE: usize = 1024 * 1024;

/// The "bytes sent" counter after one more chunk: grown by the chunk's length
/// but clamped to the known total, so the observer never sees the counter
/// overshoot the file size.
pub open spec fn advanced(done: u64, chunk: u64, total: u64) -> u64 {
    if done + chunk <= total {
        (done + chunk) as u64
    } else {
        total
    }
}

/// The monotonically non-decreasing, clamped counter of bytes processed
/// during one hash or upload operation, scoped to that operation and reset
/// per file.
pub struct Progress {
    pub done: u64,
    pub total: u64,
}

impl Progress {
    /// The counter never exceeds the known total.
    pub open spec fn wf(&self) -> bool {
        self.done <= self.total
    }

    /// A fresh counter for an operation over `total` bytes.
    pub fn new(total: u64) -> (p: Progress)
        ensures
            p.total == total,
            p.done == 0,
            p.wf(),
    {
        Progress { done: 0, total }
    }

    /// Records one chunk: the counter grows by the chunk's length, clamped to
    /// the total, and is returned for the observer. It never decreases.
    pub fn advance(&mut self, chunk: u64) -> (now: u64)
        requires
            old(self).wf(),
        ensures
            final(self).wf(),
            final(self).total == old(self).total,
            final(self).done == advanced(old(self).done, chunk, old(self).total),
            old(self).done <= final(self).done,
            now == final(self).done,
    {
        let remaining = self.total - self.done;
        if chunk < remaining {
            self.done = self.done + chunk;
        } else {
            self.done = self.total;
        }
        self.done
    }

    /// Whether the counter has reached the total, so a visual progress
    /// indicator can be cleared.
    pub fn is_complete(&self) -> (r: bool)
        ensures
            r == (self.done == self.total),
    {
        self.done == self.total
    }
}

/// The sum of a sequence of chunk lengths.
pub open spec fn chunk_sum(chunks: Seq<u64>) -> int
    decreases chunks.len(),
{
    if chunks.len() == 0 {
        0
    } else {
        chunk_sum(chunks.drop_last()) + chunks.last()
    }
}

/// The counter after a whole sequence of chunks has been recorded.
pub open spec fn progress_after(chunks: Seq<u64>, total: u64) -> u64
    decreases chunks.len(),
{
    if chunks.len() == 0 {
        0u64
    } else {
        advanced(progress_after(chunks.drop_last(), total), chunks.last(), total)
    }
}

/// The reported counter is exactly the bytes seen so far, clamped to the
/// total: `min(sum of chunks, total)`.
pub proof fn lemma_progress_value(chunks: Seq<u64>, total: u64)
    ensures
        progress_after(chunks, total) == if chunk_sum(chunks) <= total {
            chunk_sum(chunks)
        } else {
            total as int
        },
    decreases chunks.len(),
{
    if chunks.len() > 0 {
        lemma_progress_value(chunks.drop_last(), total);
    }
}

/// During a hash or upload of `total` bytes the reported sequence of counter
/// values is non-decreasing and never exceeds the total.
pub proof fn lemma_progress_monotonic(chunks: Seq<u64>, total: u64)
    ensures
        progress_after(chunks, total) <= total,
        chunks.len() > 0 ==> progress_after(chunks.drop_last(), total) <= progress_after(
            chunks,
            total,
        ),
    decreases chunks.len(),
{
    if chunks.len() > 0 {
        lemma_progress_monotonic(chunks.drop_last(), total);
    }
}

/// When the chunks read cover the whole input, the counter ends exactly at
/// the total, and the observer is told the operation is complete.
pub proof fn lemma_progress_completes(chunks: Seq<u64>, total: u64)
    requires
        chunk_sum(chunks) >= total,
    ensures
        progress_after(chunks, total) == total,
{
    lemma_progress_value(chunks, total);
}

/// The request metadata sent alongside the streamed file: everything the
/// server needs to recompute the signing string and verify the signature.
pub struct UploadToken {
    /// The client's public key fingerprint, for the `a-pk-fingerprint` header.
    pub fingerprint: String,
    /// The action name, for the `a-type` header.
    pub request_type: String,
    /// The base64 rendering of the detached signature, for the `a-signature`
    /// header.
    pub signature: String,
    /// The Unix timestamp embedded in the signing string; it must be sent
    /// verbatim as the `a-timestamp` field.
    pub timestamp: u64,
    /// The lowercase hex digest of the file content.
    pub file_hash: String,
    /// The exact signing string the signature was computed over.
    pub identify: String,
}

/// Assembles the signed request metadata for one upload attempt from the
/// client identity and the file's digest: the hex content hash, the canonical
/// signing string with its captured timestamp, the base64 signature over that
/// string, and the key fingerprint. It fails only when the signature is too
/// long to pass to the base64 encoder, which an RSA signature never is.
pub fn prepare_upload(identity: &Identity, digest: &[u8]) -> (r: Result<UploadToken, UploadError>)
    ensures
        r matches Ok(t) ==> {
            &&& t.file_hash@ == lower_hex(digest@)
            &&& t.identify@ == signing_string("UPLOAD"@, lower_hex(digest@), t.timestamp)
            &&& t.signature@ == base64_of(
                rsa_sha256_signature(
                    identity.key_der(),
                    vstd::utf8::encode_utf8(t.identify@),
                ),
            )
            &&& t.fingerprint@ == fingerprint_spec(identity.key_der())
            &&& t.request_type@ == "UPLOAD"@
        },
        r matches Err(e) ==> e == UploadError::SigningError,
        r is Err ==> exists|ts: u64|
            rsa_sha256_signature(
                identity.key_der(),
                vstd::utf8::encode_utf8(#[trigger] signing_string("UPLOAD"@, lower_hex(digest@), ts)),
            ).len() > 0x4000_0000,
{
    let file_hash = digest_bytes_to_hash(digest, None);
    proof {
        reveal_strlit("UPLOAD");
        crate::utils::lemma_lower_hex_has_no_comma(digest@);
        assert(!"UPLOAD"@.contains(','));
    }
    let make_str = create_identify_string("UPLOAD", file_hash.as_str());
    let raw_signature = sign_buffer(identity, make_str.identify.as_str().as_bytes())?;
    let signature = match encode_signature_base64(raw_signature.as_slice()) {
        Ok(s) => s,
        Err(e) => {
            proof {
                assert(rsa_sha256_signature(
                    identity.key_der(),
                    vstd::utf8::encode_utf8(
                        signing_string("UPLOAD"@, lower_hex(digest@), make_str.timestamp),
                    ),
                ).len() > 0x4000_0000);
            }
            return Err(e);
        },
    };
    let fingerprint = get_public_key_fingerprint(identity)?;
    Ok(
        UploadToken {
            fingerprint,
            request_type: String::from_str("UPLOAD"),
            signature,
            timestamp: make_str.timestamp,
            file_hash,
            identify: make_str.identify,
        },
    )
}

/// The endpoint of the asset host: `{protocol}://{host}/api/staff`.
pub fn build_upload_url(protocol: &str, host: &str) -> (r: String)
    ensures
        r@ == protocol@ + "://"@ + host@ + "/api/staff"@,
{
    let mut s = protocol.to_owned();
    s.append("://");
    s.append(host);
    s.append("/api/staff");
    s
}

/// The four custom headers of the upload request, in order: the key
/// fingerprint, the request type, the base64 signature, and the fixed user
/// agent.
pub fn request_headers(token: &UploadToken) -> (r: Vec<(String, String)>)
    ensures
        r@.len() == 4,
        r@[0].0@ == "a-pk-fingerprint"@ && r@[0].1@ == token.fingerprint@,
        r@[1].0@ == "a-type"@ && r@[1].1@ == token.request_type@,
        r@[2].0@ == "a-signature"@ && r@[2].1@ == token.signature@,
        r@[3].0@ == "user-agent"@ && r@[3].1@ == "Muisnow-Uploader"@,
{
    let mut headers: Vec<(String, String)> = Vec::new();
    headers.push((String::from_str("a-pk-fingerprint"), token.fingerprint.clone()));
    headers.push((String::from_str("a-type"), token.request_type.clone()));
    headers.push((String::from_str("a-signature"), token.signature.clone()));
    headers.push((String::from_str("user-agent"), String::from_str("Muisnow-Uploader")));
    headers
}

/// The final asset location from the server's response fields: the host and
/// the path concatenated exactly, with no delimiter inserted.
pub fn asset_location(host: &str, path: &str) -> (r: String)
    ensures
        r@ == host@ + path@,
{
    let mut s = host.to_owned();
    s.append(path);
    s
}

} // verus!
