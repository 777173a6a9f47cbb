//! The calls into outside crates and into std that the protocol relies on,
//! each with the contract that the callee's documentation gives it.
use crate::encoding::{hex_text, uuid_text};
use sha2::Digest;
use vstd::prelude::*;
use vstd::utf8::{decode_utf8, valid_utf8};

verus! {

/// The SHA-512 digest of a byte string.
pub uninterp spec fn sha512_of(b: Seq<u8>) -> Seq<u8>;

/// Standard base64 text (with padding) of a byte string.
pub uninterp spec fn base64_text(b: Seq<u8>) -> Seq<char>;

/// The bytes that standard base64 text decodes to, if it is well formed.
pub uninterp spec fn base64_decoded(s: Seq<u8>) -> Option<Seq<u8>>;

/// The identity that ASCII text names, if it is a well-formed UUID.
pub uninterp spec fn uuid_parsed(s: Seq<u8>) -> Option<u128>;

/// The DER form of the private key in a PEM document (decrypted with an empty
/// passphrase if it is encrypted), if it holds one.
pub uninterp spec fn private_key_der(pem: Seq<u8>) -> Option<Seq<u8>>;

/// The PKCS#1 DER form of the RSA public key in a PEM document, if it holds one.
pub uninterp spec fn public_key_der(pem: Seq<u8>) -> Option<Seq<u8>>;

/// The RSA PKCS#1 v1.5 signature with SHA-512 of `msg` under a DER private key.
pub uninterp spec fn pkcs1_sha512_signature(key: Seq<u8>, msg: Seq<u8>) -> Option<Seq<u8>>;

/// Whether `sig` is a valid RSA PKCS#1 v1.5 SHA-512 signature of `msg` under a
/// DER public key.
pub uninterp spec fn pkcs1_sha512_valid(key: Seq<u8>, msg: Seq<u8>, sig: Seq<u8>) -> bool;

/// The raw RSA private-key transform, with PKCS#1 type 1 padding, of `data`.
pub uninterp spec fn rsa_private_transform(key: Seq<u8>, data: Seq<u8>) -> Option<Seq<u8>>;

/// What the raw RSA public-key transform recovers from `sig`, PKCS#1 padding removed.
pub uninterp spec fn rsa_public_recover(key: Seq<u8>, sig: Seq<u8>) -> Option<Seq<u8>>;

/// The string found at a JSON pointer in a JSON document, if there is one.
pub uninterp spec fn json_string_at(doc: Seq<u8>, pointer: Seq<char>) -> Option<Seq<char>>;

/// The path component of a URI, if the text is a valid URI.
pub uninterp spec fn uri_path_of(s: Seq<char>) -> Option<Seq<char>>;

/// The view of an optional byte vector.
pub open spec fn opt_bytes(o: Option<Vec<u8>>) -> Option<Seq<u8>> {
    match o {
        Some(v) => Some(v@),
        None => None,
    }
}

/// The view of an optional string.
pub open spec fn opt_text(o: Option<String>) -> Option<Seq<char>> {
    match o {
        Some(s) => Some(s@),
        None => None,
    }
}

/// Relies on sha2's `Sha512::digest`: the 64-byte SHA-512 digest of the input.
#[verifier::external_body]
pub(crate) fn sha512(b: &[u8]) -> (r: Vec<u8>)
    ensures
        r@ == sha512_of(b@),
        r@.len() == 64,
{
    sha2::Sha512::digest(b).to_vec()
}

/// Relies on `hex::encode`: two lower-case hexadecimal digits per byte.
#[verifier::external_body]
pub(crate) fn hex_encode(b: &[u8]) -> (r: String)
    ensures
        r@ == hex_text(b@),
{
    hex::encode(b)
}

/// Relies on `base64::encode`: the standard alphabet, with padding.
#[verifier::external_body]
pub(crate) fn base64_encode(b: &[u8]) -> (r: String)
    ensures
        r@ == base64_text(b@),
{
    base64::encode(b)
}

/// Relies on `base64::decode`: the bytes of standard base64 text, or an error.
#[verifier::external_body]
pub(crate) fn base64_decode(s: &[u8]) -> (r: Option<Vec<u8>>)
    ensures
        opt_bytes(r) == base64_decoded(s@),
{
    base64::decode(s).ok()
}

/// Relies on `uuid::Uuid::try_parse_ascii`: the identity that the text names.
#[verifier::external_body]
pub(crate) fn uuid_parse(s: &[u8]) -> (r: Option<u128>)
    ensures
        r == uuid_parsed(s@),
{
    uuid::Uuid::try_parse_ascii(s).ok().map(|u| u.as_u128())
}

/// Relies on uuid's `Display` for `Uuid`: hyphenated lower-case hexadecimal.
#[verifier::external_body]
pub(crate) fn uuid_string(u: u128) -> (r: String)
    ensures
        r@ == uuid_text(u),
{
    uuid::Uuid::from_u128(u).to_string()
}

/// Relies on `String::from_utf8`: succeeds exactly on valid UTF-8.
#[verifier::external_body]
pub(crate) fn utf8_string(b: Vec<u8>) -> (r: Option<String>)
    ensures
        r is Some <==> valid_utf8(b@),
        r is Some ==> r->0@ == decode_utf8(b@),
{
    String::from_utf8(b).ok()
}

/// Relies on chrono's `Utc::now().timestamp()`: the current Unix time in seconds.
#[verifier::external_body]
pub(crate) fn unix_now() -> (r: i64) {
    chrono::Utc::now().timestamp()
}

/// Relies on openssl's `PKey::private_key_from_pem_passphrase` with an empty
/// passphrase, and `private_key_to_der`: the DER form of the key in a PEM
/// document. With the passphrase given, OpenSSL never asks for one on the
/// terminal, so an encrypted document decrypts or fails by its bytes alone.
#[verifier::external_body]
pub(crate) fn private_key_from_pem(pem: &[u8]) -> (r: Option<Vec<u8>>)
    ensures
        opt_bytes(r) == private_key_der(pem@),
{
    openssl::pkey::PKey::private_key_from_pem_passphrase(pem, b"")
        .ok()
        .and_then(|k| k.private_key_to_der().ok())
}

/// Relies on openssl's `Rsa::public_key_from_pem` and `public_key_to_der_pkcs1`:
/// the PKCS#1 DER form of the RSA public key in a PEM document.
#[verifier::external_body]
pub(crate) fn public_key_from_pem(pem: &[u8]) -> (r: Option<Vec<u8>>)
    ensures
        opt_bytes(r) == public_key_der(pem@),
{
    openssl::rsa::Rsa::public_key_from_pem(pem).ok().and_then(|k| k.public_key_to_der_pkcs1().ok())
}

/// Relies on ring's `RsaKeyPair::sign` with `RSA_PKCS1_SHA512`: a
/// deterministic signature of `msg` as long as the key's modulus.
#[verifier::external_body]
pub(crate) fn rsa_sign_pkcs1_sha512(key: &[u8], msg: &[u8]) -> (r: Option<Vec<u8>>)
    ensures
        opt_bytes(r) == pkcs1_sha512_signature(key@, msg@),
{
    let pair = ring::signature::RsaKeyPair::from_der(key).ok()?;
    let mut sig = vec![0u8; pair.public().modulus_len()];
    let rng = ring::rand::SystemRandom::new();
    pair.sign(&ring::signature::RSA_PKCS1_SHA512, &rng, msg, &mut sig).ok()?;
    Some(sig)
}

/// Relies on ring's `UnparsedPublicKey::verify` with
/// `RSA_PKCS1_2048_8192_SHA512`: whether the signature is valid.
#[verifier::external_body]
pub(crate) fn rsa_verify_pkcs1_sha512(key: &[u8], msg: &[u8], sig: &[u8]) -> (r: bool)
    ensures
        r == pkcs1_sha512_valid(key@, msg@, sig@),
{
    let public = ring::signature::UnparsedPublicKey::new(
        &ring::signature::RSA_PKCS1_2048_8192_SHA512,
        key,
    );
    public.verify(msg, sig).is_ok()
}

/// Relies on openssl's `Rsa::private_encrypt` with PKCS#1 padding: the raw
/// private-key transform of `data`.
#[verifier::external_body]
pub(crate) fn rsa_private_encrypt(key: &[u8], data: &[u8]) -> (r: Option<Vec<u8>>)
    ensures
        opt_bytes(r) == rsa_private_transform(key@, data@),
{
    let rsa = openssl::rsa::Rsa::private_key_from_der(key).ok()?;
    let mut out = vec![0u8; rsa.size() as usize];
    let len = rsa.private_encrypt(data, &mut out, openssl::rsa::Padding::PKCS1).ok()?;
    out.truncate(len);
    Some(out)
}

/// Relies on openssl's `Rsa::public_decrypt` with PKCS#1 padding: what the
/// raw public-key transform of `sig` recovers.
#[verifier::external_body]
pub(crate) fn rsa_public_decrypt(key: &[u8], sig: &[u8]) -> (r: Option<Vec<u8>>)
    ensures
        opt_bytes(r) == rsa_public_recover(key@, sig@),
{
    let rsa = openssl::rsa::Rsa::public_key_from_der_pkcs1(key).ok()?;
    let mut out = vec![0u8; rsa.size() as usize];
    let len = rsa.public_decrypt(sig, &mut out, openssl::rsa::Padding::PKCS1).ok()?;
    out.truncate(len);
    Some(out)
}

/// Relies on `serde_json::from_slice`, `Value::pointer` and `Value::as_str`:
/// the string at a JSON pointer in a JSON document.
#[verifier::external_body]
pub(crate) fn json_string(doc: &[u8], pointer: &str) -> (r: Option<String>)
    ensures
        opt_text(r) == json_string_at(doc@, pointer@),
{
    let value: serde_json::Value = serde_json::from_slice(doc).ok()?;
    value.pointer(pointer).and_then(|v| v.as_str()).map(|s| s.to_string())
}

/// Relies on hyper's `Uri` parser and `Uri::path`: the path of a valid URI.
#[verifier::external_body]
pub(crate) fn uri_path(s: &str) -> (r: Option<String>)
    ensures
        opt_text(r) == uri_path_of(s@),
{
    s.parse::<hyper::Uri>().ok().map(|u| u.path().to_string())
}

} // verus!
