//! The byte strings that are signed and verified: one for a request and one
//! for a response, in either protocol version.
use crate::encoding::{
    append_bytes, decimal_string, decimal_text, hex_text, lemma_hex_text_len, uuid_text,
};
use crate::primitives::{hex_encode, sha512, sha512_of, uuid_string};
use vstd::prelude::*;
use vstd::utf8::encode_utf8;

verus! {

/// The two protocol versions: the legacy raw-RSA scheme (`MWS`) and the
/// current PKCS#1 signature scheme (`MWSV2`).
#[derive(Clone, Copy, Debug, PartialEq, Eq, Structural)]
pub enum Version {
    Legacy,
    Current,
}

/// A line feed.
pub open spec fn nl() -> Seq<u8> {
    seq![10u8]
}

/// `{method}\n{path}\n{field}\n{identity}\n{timestamp}\n`, where `field` is the
/// body or its digest.
pub open spec fn request_string(
    method: Seq<char>,
    path: Seq<char>,
    field: Seq<u8>,
    id: u128,
    ts: Seq<u8>,
) -> Seq<u8> {
    encode_utf8(method) + nl() + encode_utf8(path) + nl() + field + nl() + encode_utf8(uuid_text(id))
        + nl() + ts + nl()
}

/// Lower-case hexadecimal text of the SHA-512 digest of a byte string.
pub open spec fn digest_text(b: Seq<u8>) -> Seq<char> {
    hex_text(sha512_of(b))
}

/// The third field of a request string: the raw body in the legacy version,
/// the hexadecimal SHA-512 digest of the body in the current one.
pub open spec fn body_field(version: Version, body: Seq<char>) -> Seq<u8> {
    match version {
        Version::Legacy => encode_utf8(body),
        Version::Current => encode_utf8(digest_text(encode_utf8(body))),
    }
}

/// The canonical request string of a version.
pub open spec fn canonical_request(
    version: Version,
    method: Seq<char>,
    path: Seq<char>,
    body: Seq<char>,
    id: u128,
    ts: Seq<u8>,
) -> Seq<u8> {
    request_string(method, path, body_field(version, body), id, ts)
}

/// `{status}\n{hex-sha512(body)}\n{signer}\n{timestamp}`, with no final line feed.
pub open spec fn response_string(status: u16, body: Seq<u8>, signer: u128, ts: Seq<u8>) -> Seq<u8> {
    encode_utf8(decimal_text(status as int)) + nl() + encode_utf8(digest_text(body)) + nl()
        + encode_utf8(uuid_text(signer)) + nl() + ts
}

/// What a version signs for a response: the response string itself in the
/// current version, its SHA-512 digest in the legacy one.
pub open spec fn response_sign_input(
    version: Version,
    status: u16,
    body: Seq<u8>,
    signer: u128,
    ts: Seq<u8>,
) -> Seq<u8> {
    match version {
        Version::Legacy => sha512_of(response_string(status, body, signer, ts)),
        Version::Current => response_string(status, body, signer, ts),
    }
}

/// The hexadecimal SHA-512 digest of a body.
pub fn body_digest(body: &[u8]) -> (r: String)
    ensures
        r@ == digest_text(body@),
        r@.len() == 128,
{
    let d = sha512(body);
    proof {
        lemma_hex_text_len(d@);
    }
    hex_encode(d.as_slice())
}

/// Builds `{method}\n{path}\n{field}\n{identity}\n{timestamp}\n`.
pub fn build_request_string(
    method: &str,
    path: &str,
    field: &[u8],
    id: u128,
    timestamp: &[u8],
) -> (r: Vec<u8>)
    ensures
        r@ == request_string(method@, path@, field@, id, timestamp@),
{
    let id_text = uuid_string(id);
    let mut v: Vec<u8> = Vec::new();
    append_bytes(&mut v, method.as_bytes());
    v.push(10u8);
    append_bytes(&mut v, path.as_bytes());
    v.push(10u8);
    append_bytes(&mut v, field);
    v.push(10u8);
    append_bytes(&mut v, id_text.as_str().as_bytes());
    v.push(10u8);
    append_bytes(&mut v, timestamp);
    v.push(10u8);
    assert(v@ =~= request_string(method@, path@, field@, id, timestamp@));
    v
}

/// The canonical request string of `version` for the given request.
pub fn canonicalize_request(
    version: Version,
    method: &str,
    path: &str,
    body: &str,
    id: u128,
    timestamp: &[u8],
) -> (r: Vec<u8>)
    ensures
        r@ == canonical_request(version, method@, path@, body@, id, timestamp@),
{
    match version {
        Version::Legacy => build_request_string(method, path, body.as_bytes(), id, timestamp),
        Version::Current => {
            let digest = body_digest(body.as_bytes());
            build_request_string(method, path, digest.as_str().as_bytes(), id, timestamp)
        },
    }
}

/// The canonical response string for a status, a body, the signer's identity
/// and the timestamp text of the response.
pub fn canonicalize_response(status: u16, body: &[u8], signer: u128, timestamp: &[u8]) -> (r: Vec<
    u8,
>)
    ensures
        r@ == response_string(status, body@, signer, timestamp@),
{
    let status_text = decimal_string(status as i64);
    let digest = body_digest(body);
    let signer_text = uuid_string(signer);
    let mut v: Vec<u8> = Vec::new();
    append_bytes(&mut v, status_text.as_str().as_bytes());
    v.push(10u8);
    append_bytes(&mut v, digest.as_str().as_bytes());
    v.push(10u8);
    append_bytes(&mut v, signer_text.as_str().as_bytes());
    v.push(10u8);
    append_bytes(&mut v, timestamp);
    assert(v@ =~= response_string(status, body@, signer, timestamp@));
    v
}

/// The bytes that `version` signs for a response.
pub fn response_signing_input(
    version: Version,
    status: u16,
    body: &[u8],
    signer: u128,
    timestamp: &[u8],
) -> (r: Vec<u8>)
    ensures
        r@ == response_sign_input(version, status, body@, signer, timestamp@),
{
    let s = canonicalize_response(status, body, signer, timestamp);
    match version {
        Version::Legacy => sha512(s.as_slice()),
        Version::Current => s,
    }
}

/// The canonical request string depends on its inputs alone: two requests
/// with the same method, path, body, identity and timestamp canonicalize to
/// the same bytes, and so does one request canonicalized twice.
pub proof fn lemma_canonical_request_deterministic(
    version: Version,
    method: Seq<char>,
    path: Seq<char>,
    body: Seq<char>,
    id: u128,
    ts: Seq<u8>,
    r1: Seq<u8>,
    r2: Seq<u8>,
)
    requires
        r1 == canonical_request(version, method, path, body, id, ts),
        r2 == canonical_request(version, method, path, body, id, ts),
    ensures
        r1 == r2,
{
}

} // verus!
