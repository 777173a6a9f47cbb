//! The MAuth client: request signing, response validation and the cache of
//! remote parties' public keys.
use crate::canonical::{
    body_digest, build_request_string, digest_text, request_string, response_sign_input,
    response_signing_input, response_string, Version,
};
use crate::encoding::{append_bytes, bytes_equal, decimal_string, decimal_text, uuid_text};
use crate::headers::{
    find_header, header_value, parsed_auth, split_auth_string, timestamp_value, validate_timestamp,
    within_window, REPLAY_WINDOW,
};
use crate::primitives::{
    base64_encode, base64_text, json_string, json_string_at, opt_bytes,
    pkcs1_sha512_signature, pkcs1_sha512_valid, private_key_der, private_key_from_pem,
    public_key_der, public_key_from_pem, rsa_private_encrypt, rsa_private_transform,
    rsa_public_decrypt, rsa_public_recover, rsa_sign_pkcs1_sha512, rsa_verify_pkcs1_sha512, sha512,
    sha512_of, unix_now, uri_path, uri_path_of, utf8_string, uuid_parse, uuid_parsed, uuid_string,
};
use std::collections::HashMap;
use vstd::prelude::*;
use vstd::utf8::{decode_utf8, encode_utf8, valid_utf8};

verus! {

/// Why a response failed validation.
#[derive(Clone, Copy, Debug, PartialEq, Eq, Structural)]
pub enum MAuthValidationError {
    /// The timestamp is not an integer, or lies outside the replay window.
    InvalidTime,
    /// The signature header is not well formed.
    InvalidSignature,
    /// The time header is missing.
    NoTime,
    /// The signature header is missing.
    NoSig,
    /// The body could not be read.
    ResponseProblem,
    /// The body is not UTF-8.
    InvalidBody,
    /// The signer's public key could not be had.
    KeyUnavailable,
    /// The signature does not hold.
    SignatureVerifyFailure,
}

/// Why a request could not be signed.
#[derive(Clone, Copy, Debug, PartialEq, Eq, Structural)]
pub enum MAuthSignError {
    /// The private-key operation failed.
    PrivateKeyFailure,
}

/// An outgoing HTTP request as far as signing reads and changes it. Header
/// names are held in lower case, as HTTP treats them without regard to case.
#[derive(Debug)]
pub struct Request {
    pub method: String,
    pub uri: String,
    pub path: String,
    pub headers: Vec<(String, String)>,
}

/// Names and values of a list of headers.
pub open spec fn headers_view(hs: Seq<(String, String)>) -> Seq<(Seq<char>, Seq<char>)> {
    hs.map_values(|h: (String, String)| (h.0@, h.1@))
}

/// The headers with every one called `name` taken out, the others in order.
pub open spec fn without_header(hs: Seq<(Seq<char>, Seq<char>)>, name: Seq<char>) -> Seq<
    (Seq<char>, Seq<char>),
>
    decreases hs.len(),
{
    if hs.len() == 0 {
        hs
    } else if hs.last().0 == name {
        without_header(hs.drop_last(), name)
    } else {
        without_header(hs.drop_last(), name).push(hs.last())
    }
}

/// The headers after setting `name` to `value`: any earlier value is replaced.
pub open spec fn with_header(
    hs: Seq<(Seq<char>, Seq<char>)>,
    name: Seq<char>,
    value: Seq<char>,
) -> Seq<(Seq<char>, Seq<char>)> {
    without_header(hs, name).push((name, value))
}

/// The header that carries a version's timestamp.
pub open spec fn time_header_name(version: Version) -> Seq<char> {
    match version {
        Version::Legacy => "x-mws-time"@,
        Version::Current => "mcc-time"@,
    }
}

/// The header that carries a version's signature.
pub open spec fn auth_header_name(version: Version) -> Seq<char> {
    match version {
        Version::Legacy => "x-mws-authentication"@,
        Version::Current => "mcc-authentication"@,
    }
}

/// The signature header's value: `MWS {identity}:{base64}` in the legacy
/// version, `MWSV2 {identity}:{base64};` in the current one.
pub open spec fn auth_header_text(version: Version, id: u128, sig: Seq<u8>) -> Seq<char> {
    match version {
        Version::Legacy => "MWS "@ + uuid_text(id) + ":"@ + base64_text(sig),
        Version::Current => "MWSV2 "@ + uuid_text(id) + ":"@ + base64_text(sig) + ";"@,
    }
}

/// The signature that `version` makes with `key` over a canonical request string.
pub open spec fn request_signature(version: Version, key: Seq<u8>, canonical: Seq<u8>) -> Option<
    Seq<u8>,
> {
    match version {
        Version::Legacy => rsa_private_transform(key, sha512_of(canonical)),
        Version::Current => pkcs1_sha512_signature(key, canonical),
    }
}

/// The headers that signing at Unix time `now` leaves on a request, if the
/// private-key operation succeeds: the request's own headers with the
/// version's time and signature headers set.
pub open spec fn signed_headers(
    version: Version,
    key: Seq<u8>,
    id: u128,
    method: Seq<char>,
    path: Seq<char>,
    field: Seq<u8>,
    now: int,
    hs: Seq<(Seq<char>, Seq<char>)>,
) -> Option<Seq<(Seq<char>, Seq<char>)>> {
    let ts = decimal_text(now);
    let canonical = request_string(method, path, field, id, encode_utf8(ts));
    match request_signature(version, key, canonical) {
        Some(sig) => Some(
            with_header(
                with_header(hs, time_header_name(version), ts),
                auth_header_name(version),
                auth_header_text(version, id, sig),
            ),
        ),
        None => None,
    }
}

/// The name of a version's time header.
pub fn time_header(version: Version) -> (r: String)
    ensures
        r@ == time_header_name(version),
{
    match version {
        Version::Legacy => String::from_str("x-mws-time"),
        Version::Current => String::from_str("mcc-time"),
    }
}

/// The name of a version's signature header.
pub fn auth_header(version: Version) -> (r: String)
    ensures
        r@ == auth_header_name(version),
{
    match version {
        Version::Legacy => String::from_str("x-mws-authentication"),
        Version::Current => String::from_str("mcc-authentication"),
    }
}

/// Sets the header `name` to `value`, replacing any earlier value.
pub fn set_header(hs: &mut Vec<(String, String)>, name: String, value: String)
    ensures
        headers_view(final(hs)@) == with_header(headers_view(old(hs)@), name@, value@),
{
    let mut kept: Vec<(String, String)> = Vec::new();
    let mut i: usize = 0;
    while i < hs.len()
        invariant
            0 <= i <= hs@.len(),
            hs@ == old(hs)@,
            headers_view(kept@) == without_header(
                headers_view(hs@.subrange(0, i as int)),
                name@,
            ),
        decreases hs@.len() - i,
    {
        let ghost pre = headers_view(hs@.subrange(0, i + 1));
        assert(pre.drop_last() =~= headers_view(hs@.subrange(0, i as int)));
        assert(pre.last() == (hs@[i as int].0@, hs@[i as int].1@));
        if hs[i].0 != name {
            let h = (hs[i].0.clone(), hs[i].1.clone());
            let ghost before = kept@;
            kept.push(h);
            assert(headers_view(kept@) =~= headers_view(before).push(pre.last()));
        }
        i = i + 1;
    }
    assert(hs@.subrange(0, hs@.len() as int) =~= hs@);
    let ghost before = kept@;
    kept.push((name, value));
    assert(headers_view(kept@) =~= headers_view(before).push((name@, value@)));
    *hs = kept;
}

/// Whether a signing call at Unix time `now` did what signing promises: the
/// request's method, URI and path are kept; when the private-key operation
/// succeeds the call returns `Ok` and the request carries the signed headers,
/// and otherwise it returns `Err` and the headers are untouched.
pub open spec fn signing_outcome(
    version: Version,
    key: Seq<u8>,
    id: u128,
    before: Request,
    after: Request,
    field: Seq<u8>,
    now: int,
    r: Result<(), MAuthSignError>,
) -> bool {
    &&& after.method@ == before.method@
    &&& after.uri@ == before.uri@
    &&& after.path@ == before.path@
    &&& match signed_headers(
        version,
        key,
        id,
        before.method@,
        before.path@,
        field,
        now,
        headers_view(before.headers@),
    ) {
        Some(hs) => r is Ok && headers_view(after.headers@) == hs,
        None => r is Err && headers_view(after.headers@) == headers_view(before.headers@),
    }
}

impl Request {
    /// A request with no headers yet, if `uri` is a valid URI.
    pub fn new(method: &str, uri: &str) -> (r: Option<Request>)
        ensures
            match r {
                Some(req) => uri_path_of(uri@) == Some(req.path@) && req.method@ == method@
                    && req.uri@ == uri@ && req.headers@.len() == 0,
                None => uri_path_of(uri@) is None,
            },
    {
        match uri_path(uri) {
            Some(path) => Some(
                Request {
                    method: String::from_str(method),
                    uri: String::from_str(uri),
                    path,
                    headers: Vec::new(),
                },
            ),
            None => None,
        }
    }
}

/// The value of a version's signature header.
fn auth_value(version: Version, id: u128, sig: &[u8]) -> (r: String)
    ensures
        r@ == auth_header_text(version, id, sig@),
{
    let mut s = match version {
        Version::Legacy => String::from_str("MWS "),
        Version::Current => String::from_str("MWSV2 "),
    };
    let id_text = uuid_string(id);
    s.append(id_text.as_str());
    s.append(":");
    let encoded = base64_encode(sig);
    s.append(encoded.as_str());
    match version {
        Version::Legacy => {},
        Version::Current => s.append(";"),
    }
    s
}

/// Signs `req` in `version` with `key` as identity `id` at Unix time `now`;
/// `field` is the third line of the canonical string.
fn sign_with_key(
    version: Version,
    key: &[u8],
    id: u128,
    req: &mut Request,
    field: &[u8],
    now: i64,
) -> (r: Result<(), MAuthSignError>)
    ensures
        signing_outcome(version, key@, id, *old(req), *final(req), field@, now as int, r),
{
    let ts = decimal_string(now);
    let canonical = build_request_string(
        req.method.as_str(),
        req.path.as_str(),
        field,
        id,
        ts.as_str().as_bytes(),
    );
    let sig = match version {
        Version::Legacy => {
            let digest = sha512(canonical.as_slice());
            rsa_private_encrypt(key, digest.as_slice())
        },
        Version::Current => rsa_sign_pkcs1_sha512(key, canonical.as_slice()),
    };
    let sig = match sig {
        Some(sig) => sig,
        None => {
            return Err(MAuthSignError::PrivateKeyFailure);
        },
    };
    let auth = auth_value(version, id, sig.as_slice());
    set_header(&mut req.headers, time_header(version), ts);
    set_header(&mut req.headers, auth_header(version), auth);
    Ok(())
}

/// Why a client could not be set up from its configuration.
#[derive(Clone, Copy, Debug, PartialEq, Eq, Structural)]
pub enum MAuthConfigError {
    /// The key-exchange address is not a valid URI.
    InvalidUri,
    /// The PEM document holds no private key that can be read.
    KeyLoadError,
    /// The private key cannot make RSA PKCS#1 SHA-512 signatures.
    InvalidKey,
    /// The application identity is not a valid UUID.
    InvalidUuid,
}

/// What is known of a remote party's key when a response is to be checked.
pub enum KeyFetch {
    /// No fetch from the key-exchange service has been made.
    NotYet,
    /// The fetch failed in transport.
    TransportFailed,
    /// The key-exchange service answered with this body.
    Received(Vec<u8>),
}

/// The outcome of resolving a remote party's public key.
pub enum KeyResolution {
    /// The key, as PKCS#1 DER.
    Known(Vec<u8>),
    /// The key must be fetched with this signed request.
    Fetch(Request),
    /// The key cannot be had.
    Unavailable,
}

/// A received HTTP response, as validation reads it. Header names are in
/// lower case; `body` is `None` when reading the body failed.
pub struct Response {
    pub status: u16,
    pub headers: Vec<(String, Vec<u8>)>,
    pub body: Option<Vec<u8>>,
}

/// What the headers and body of a response yield before its signer's key is
/// known: the signer, the signature, the timestamp text and the body.
pub struct PendingCheck {
    pub signer: u128,
    pub signature: Vec<u8>,
    pub timestamp: Vec<u8>,
    pub body: Vec<u8>,
}

/// One step of validating a response: either it is done, or the signer's
/// key must first be fetched with the given request.
pub enum ValidationStep {
    Done(Result<String, MAuthValidationError>),
    FetchKey(Request),
}

/// The text view of a result that carries a string.
pub open spec fn result_text(r: Result<String, MAuthValidationError>) -> Result<
    Seq<char>,
    MAuthValidationError,
> {
    match r {
        Ok(s) => Ok(s@),
        Err(e) => Err(e),
    }
}

/// The outcome of a validation step that is done, if it is.
pub open spec fn done_text(r: ValidationStep) -> Option<Result<Seq<char>, MAuthValidationError>> {
    match r {
        ValidationStep::Done(x) => Some(result_text(x)),
        ValidationStep::FetchKey(_) => None,
    }
}

/// The checks on a response that need no key, in order: the time header
/// (`NoTime`), its value and the replay window around `now` (`InvalidTime`),
/// the signature header (`NoSig`), its structure (`InvalidSignature`) and the
/// body (`ResponseProblem`). On success: signer, signature, timestamp text
/// and body.
pub open spec fn response_checks(version: Version, resp: Response, now: int) -> Result<
    (u128, Seq<u8>, Seq<u8>, Seq<u8>),
    MAuthValidationError,
> {
    match header_value(resp.headers@, time_header_name(version)) {
        None => Err(MAuthValidationError::NoTime),
        Some(t) => match timestamp_value(t) {
            None => Err(MAuthValidationError::InvalidTime),
            Some(ts) => if !within_window(ts, now) {
                Err(MAuthValidationError::InvalidTime)
            } else {
                match header_value(resp.headers@, auth_header_name(version)) {
                    None => Err(MAuthValidationError::NoSig),
                    Some(a) => match parsed_auth(version, a) {
                        None => Err(MAuthValidationError::InvalidSignature),
                        Some(p) => match resp.body {
                            None => Err(MAuthValidationError::ResponseProblem),
                            Some(b) => Ok((p.0, p.1, t, b@)),
                        },
                    },
                }
            },
        },
    }
}

/// Whether a signature over a response holds under a public key: in the
/// current version a PKCS#1 SHA-512 signature of the response string; in the
/// legacy version, what the raw public-key transform recovers must equal the
/// SHA-512 digest of the response string.
pub open spec fn signature_holds(
    version: Version,
    key: Seq<u8>,
    status: u16,
    signer: u128,
    sig: Seq<u8>,
    ts: Seq<u8>,
    body: Seq<u8>,
) -> bool {
    let input = response_sign_input(version, status, body, signer, ts);
    match version {
        Version::Current => pkcs1_sha512_valid(key, input, sig),
        Version::Legacy => rsa_public_recover(key, sig) == Some(input),
    }
}

/// The outcome of checking a response with its signer's key:
/// `SignatureVerifyFailure` if the signature does not hold, `InvalidBody` if
/// the body is not UTF-8, and otherwise the body's text.
pub open spec fn signature_outcome(
    version: Version,
    key: Seq<u8>,
    status: u16,
    signer: u128,
    sig: Seq<u8>,
    ts: Seq<u8>,
    body: Seq<u8>,
) -> Result<Seq<char>, MAuthValidationError> {
    if !signature_holds(version, key, status, signer, sig, ts, body) {
        Err(MAuthValidationError::SignatureVerifyFailure)
    } else if !valid_utf8(body) {
        Err(MAuthValidationError::InvalidBody)
    } else {
        Ok(decode_utf8(body))
    }
}

/// What one validation step does: a response that fails a check that needs
/// no key gets that error and leaves the client as it was; otherwise the
/// signer's key is resolved, and the step is done with the signature's
/// outcome, asks for the key fetch, or ends in `KeyUnavailable`.
pub open spec fn validation_step(
    before: MAuthInfo,
    after: MAuthInfo,
    version: Version,
    resp: Response,
    now: int,
    fetched: KeyFetch,
    r: ValidationStep,
) -> bool {
    match response_checks(version, resp, now) {
        Err(e) => {
            &&& after.same_party(&before)
            &&& after.cache() == before.cache()
            &&& done_text(r) == Some(Err::<Seq<char>, MAuthValidationError>(e))
        },
        Ok(p) => exists|res: KeyResolution|
            #[trigger] before.resolves(&after, p.0, fetched, now, res) && match res {
                KeyResolution::Known(k) => done_text(r) == Some(
                    signature_outcome(version, k@, resp.status, p.0, p.1, p.2, p.3),
                ),
                KeyResolution::Fetch(req) => r == ValidationStep::FetchKey(req),
                KeyResolution::Unavailable => done_text(r) == Some(
                    Err::<Seq<char>, MAuthValidationError>(MAuthValidationError::KeyUnavailable),
                ),
            },
    }
}

/// Runs the checks on a response that need no key.
pub fn check_response(version: Version, response: &Response, now: i64) -> (r: Result<
    PendingCheck,
    MAuthValidationError,
>)
    ensures
        match r {
            Ok(p) => response_checks(version, *response, now as int) == Ok::<
                (u128, Seq<u8>, Seq<u8>, Seq<u8>),
                MAuthValidationError,
            >((p.signer, p.signature@, p.timestamp@, p.body@)),
            Err(e) => response_checks(version, *response, now as int) == Err::<
                (u128, Seq<u8>, Seq<u8>, Seq<u8>),
                MAuthValidationError,
            >(e),
        },
{
    let timestamp = match find_header(&response.headers, &time_header(version)) {
        Some(t) => t,
        None => {
            return Err(MAuthValidationError::NoTime);
        },
    };
    match validate_timestamp(timestamp.as_slice(), now) {
        Ok(_) => {},
        Err(e) => {
            return Err(e);
        },
    }
    let auth = match find_header(&response.headers, &auth_header(version)) {
        Some(a) => a,
        None => {
            return Err(MAuthValidationError::NoSig);
        },
    };
    let (signer, signature) = match split_auth_string(version, auth.as_slice()) {
        Ok(p) => p,
        Err(e) => {
            return Err(e);
        },
    };
    match &response.body {
        Some(b) => Ok(PendingCheck { signer, signature, timestamp, body: b.clone() }),
        None => Err(MAuthValidationError::ResponseProblem),
    }
}

/// Checks a response's signature with its signer's public key (PKCS#1 DER),
/// then decodes the body. In the legacy version the bytes that the signature
/// recovers must equal the digest of the response string, not merely have
/// its length.
pub fn check_signature(version: Version, key: &[u8], status: u16, pending: PendingCheck) -> (r:
    Result<String, MAuthValidationError>)
    ensures
        result_text(r) == signature_outcome(
            version,
            key@,
            status,
            pending.signer,
            pending.signature@,
            pending.timestamp@,
            pending.body@,
        ),
{
    let input = response_signing_input(
        version,
        status,
        pending.body.as_slice(),
        pending.signer,
        pending.timestamp.as_slice(),
    );
    let holds = match version {
        Version::Current => rsa_verify_pkcs1_sha512(key, input.as_slice(), pending.signature.as_slice()),
        Version::Legacy => match rsa_public_decrypt(key, pending.signature.as_slice()) {
            Some(recovered) => bytes_equal(recovered.as_slice(), input.as_slice()),
            None => false,
        },
    };
    if !holds {
        return Err(MAuthValidationError::SignatureVerifyFailure);
    }
    match utf8_string(pending.body) {
        Some(text) => Ok(text),
        None => Err(MAuthValidationError::InvalidBody),
    }
}

/// The public key, as PKCS#1 DER, in an answer of the key-exchange service.
pub fn parse_key_document(body: &[u8]) -> (r: Option<Vec<u8>>)
    ensures
        opt_bytes(r) == fetched_key(body@),
{
    match json_string(body, "/security_token/public_key_str") {
        Some(pem) => public_key_from_pem(pem.as_str().as_bytes()),
        None => None,
    }
}

/// Whether a PEM private key and a PEM public key form a pair: a current
/// version signature of `message` made with the first holds under the second.
pub open spec fn keys_match(private_pem: Seq<u8>, public_pem: Seq<u8>, message: Seq<u8>) -> bool {
    match (private_key_der(private_pem), public_key_der(public_pem)) {
        (Some(private_key), Some(public_key)) => match pkcs1_sha512_signature(private_key, message) {
            Some(sig) => pkcs1_sha512_valid(public_key, message, sig),
            None => false,
        },
        _ => false,
    }
}

/// Checks that two PEM keys form a pair by signing `message` with the
/// private key and verifying the signature with the public key.
pub fn key_pair_matches(private_pem: &[u8], public_pem: &[u8], message: &[u8]) -> (r: bool)
    ensures
        r == keys_match(private_pem@, public_pem@, message@),
{
    let private_key = match private_key_from_pem(private_pem) {
        Some(k) => k,
        None => {
            return false;
        },
    };
    let public_key = match public_key_from_pem(public_pem) {
        Some(k) => k,
        None => {
            return false;
        },
    };
    match rsa_sign_pkcs1_sha512(private_key.as_slice(), message) {
        Some(sig) => rsa_verify_pkcs1_sha512(public_key.as_slice(), message, sig.as_slice()),
        None => false,
    }
}

/// The local party of the protocol: its identity, its private key, the
/// address of the key-exchange service, and the public keys of remote
/// parties fetched so far.
pub struct MAuthInfo {
    app_id: u128,
    private_key: Vec<u8>,
    mauth_uri_base: String,
    remote_key_store: HashMap<u128, Vec<u8>>,
}

/// The key-exchange address of a configuration:
/// `{base}/mauth/{api-version}/security_tokens/`.
pub open spec fn key_base_of(baseurl: Seq<char>, api_version: Seq<char>) -> Seq<char> {
    baseurl + "/mauth/"@ + api_version + "/security_tokens/"@
}

/// The JSON pointer at which the key-exchange service puts the PEM public key.
pub open spec fn public_key_pointer() -> Seq<char> {
    "/security_token/public_key_str"@
}

/// The public key that a key-exchange answer carries, as PKCS#1 DER.
pub open spec fn fetched_key(body: Seq<u8>) -> Option<Seq<u8>> {
    match json_string_at(body, public_key_pointer()) {
        Some(pem) => public_key_der(encode_utf8(pem)),
        None => None,
    }
}

/// The third line of the request string of a key fetch: the digest of an
/// empty body.
pub open spec fn empty_body_field() -> Seq<u8> {
    encode_utf8(digest_text(Seq::empty()))
}

impl MAuthInfo {
    /// The local identity.
    pub closed spec fn id(&self) -> u128 {
        self.app_id
    }

    /// The private key, as DER.
    pub closed spec fn key(&self) -> Seq<u8> {
        self.private_key@
    }

    /// The address to which a remote identity is appended to fetch its key.
    pub closed spec fn key_base(&self) -> Seq<char> {
        self.mauth_uri_base@
    }

    /// The public keys fetched so far, by remote identity.
    pub closed spec fn cache(&self) -> Map<u128, Seq<u8>> {
        self.remote_key_store@.map_values(|v: Vec<u8>| v@)
    }

    /// Whether two states of a client have the same identity, private key and
    /// key-exchange address.
    pub open spec fn same_party(&self, other: &MAuthInfo) -> bool {
        &&& self.id() == other.id()
        &&& self.key() == other.key()
        &&& self.key_base() == other.key_base()
    }

    /// The signed request that fetches the key of `id` at Unix time `now`.
    pub open spec fn key_request_ok(&self, id: u128, now: int, req: Request) -> bool {
        &&& req.method@ == "GET"@
        &&& req.uri@ == self.key_base() + uuid_text(id)
        &&& uri_path_of(req.uri@) == Some(req.path@)
        &&& signed_headers(
            Version::Current,
            self.key(),
            self.id(),
            "GET"@,
            req.path@,
            empty_body_field(),
            now,
            Seq::empty(),
        ) == Some(headers_view(req.headers@))
    }

    /// Whether the key fetch for `id` at Unix time `now` can be built and signed.
    pub open spec fn key_request_possible(&self, id: u128, now: int) -> bool {
        match uri_path_of(self.key_base() + uuid_text(id)) {
            Some(path) => signed_headers(
                Version::Current,
                self.key(),
                self.id(),
                "GET"@,
                path,
                empty_body_field(),
                now,
                Seq::empty(),
            ) is Some,
            None => false,
        }
    }

    /// What resolving the key of `id` does: a cached key is returned as it
    /// is; otherwise, before a fetch, the signed fetch request is handed out,
    /// and after one, the key in the answer is cached and returned.
    pub open spec fn resolves(
        &self,
        after: &MAuthInfo,
        id: u128,
        fetched: KeyFetch,
        now: int,
        r: KeyResolution,
    ) -> bool {
        &&& after.same_party(self)
        &&& if self.cache().contains_key(id) {
            &&& after.cache() == self.cache()
            &&& match r {
                KeyResolution::Known(k) => k@ == self.cache()[id],
                _ => false,
            }
        } else {
            match fetched {
                KeyFetch::NotYet => {
                    &&& after.cache() == self.cache()
                    &&& match r {
                        KeyResolution::Fetch(req) => self.key_request_possible(id, now)
                            && self.key_request_ok(id, now, req),
                        KeyResolution::Unavailable => !self.key_request_possible(id, now),
                        _ => false,
                    }
                },
                KeyFetch::TransportFailed => after.cache() == self.cache() && r is Unavailable,
                KeyFetch::Received(body) => match fetched_key(body@) {
                    Some(k) => {
                        &&& after.cache() == self.cache().insert(id, k)
                        &&& match r {
                            KeyResolution::Known(got) => got@ == k,
                            _ => false,
                        }
                    },
                    None => after.cache() == self.cache() && r is Unavailable,
                },
            }
        }
    }

    /// Sets up a client from its configuration: the application identity,
    /// the key-exchange service's base URL and API version, and a PEM private
    /// key, which must be able to sign. The key cache starts empty.
    pub fn from_config(
        app_uuid: &str,
        mauth_baseurl: &str,
        mauth_api_version: &str,
        private_key_pem: &[u8],
    ) -> (r: Result<MAuthInfo, MAuthConfigError>)
        ensures
            match r {
                Ok(info) => {
                    &&& uri_path_of(key_base_of(mauth_baseurl@, mauth_api_version@)) is Some
                    &&& private_key_der(private_key_pem@) == Some(info.key())
                    &&& uuid_parsed(encode_utf8(app_uuid@)) == Some(info.id())
                    &&& pkcs1_sha512_signature(info.key(), Seq::empty()) is Some
                    &&& info.key_base() == key_base_of(mauth_baseurl@, mauth_api_version@)
                    &&& info.cache() == Map::<u128, Seq<u8>>::empty()
                },
                Err(MAuthConfigError::InvalidUri) => uri_path_of(
                    key_base_of(mauth_baseurl@, mauth_api_version@),
                ) is None,
                Err(MAuthConfigError::KeyLoadError) => uri_path_of(
                    key_base_of(mauth_baseurl@, mauth_api_version@),
                ) is Some && private_key_der(private_key_pem@) is None,
                Err(MAuthConfigError::InvalidUuid) => uri_path_of(
                    key_base_of(mauth_baseurl@, mauth_api_version@),
                ) is Some && private_key_der(private_key_pem@) is Some && uuid_parsed(
                    encode_utf8(app_uuid@),
                ) is None,
                Err(MAuthConfigError::InvalidKey) => {
                    &&& uri_path_of(key_base_of(mauth_baseurl@, mauth_api_version@)) is Some
                    &&& uuid_parsed(encode_utf8(app_uuid@)) is Some
                    &&& match private_key_der(private_key_pem@) {
                        Some(k) => pkcs1_sha512_signature(k, Seq::empty()) is None,
                        None => false,
                    }
                },
            },
    {
        let mut base = String::from_str(mauth_baseurl);
        base.append("/mauth/");
        base.append(mauth_api_version);
        base.append("/security_tokens/");
        if uri_path(base.as_str()).is_none() {
            return Err(MAuthConfigError::InvalidUri);
        }
        let key = match private_key_from_pem(private_key_pem) {
            Some(key) => key,
            None => {
                return Err(MAuthConfigError::KeyLoadError);
            },
        };
        let id = match uuid_parse(app_uuid.as_bytes()) {
            Some(id) => id,
            None => {
                return Err(MAuthConfigError::InvalidUuid);
            },
        };
        let empty: Vec<u8> = Vec::new();
        if rsa_sign_pkcs1_sha512(key.as_slice(), empty.as_slice()).is_none() {
            assert(empty@ =~= Seq::<u8>::empty());
            return Err(MAuthConfigError::InvalidKey);
        }
        assert(empty@ =~= Seq::<u8>::empty());
        let store: HashMap<u128, Vec<u8>> = HashMap::new();
        let info = MAuthInfo { app_id: id, private_key: key, mauth_uri_base: base, remote_key_store: store };
        assert(info.cache() =~= Map::<u128, Seq<u8>>::empty());
        Ok(info)
    }

    /// Signs `req` in `version` at Unix time `now`; `field` is the third line
    /// of the canonical string (the body in the legacy version, its digest in
    /// the current one).
    pub fn sign_request_at(
        &self,
        version: Version,
        req: &mut Request,
        field: &[u8],
        now: i64,
    ) -> (r: Result<(), MAuthSignError>)
        ensures
            signing_outcome(version, self.key(), self.id(), *old(req), *final(req), field@, now as int, r),
    {
        sign_with_key(version, self.private_key.as_slice(), self.app_id, req, field, now)
    }

    /// Signs `req` in the current version at the present time, given the
    /// hexadecimal SHA-512 digest of its body.
    pub fn sign_request_v2(&self, req: &mut Request, body_digest: &str) -> (r: Result<
        (),
        MAuthSignError,
    >)
        ensures
            exists|now: i64|
                signing_outcome(
                    Version::Current,
                    self.key(),
                    self.id(),
                    *old(req),
                    *final(req),
                    encode_utf8(body_digest@),
                    now as int,
                    r,
                ),
    {
        let now = unix_now();
        self.sign_request_at(Version::Current, req, body_digest.as_bytes(), now)
    }

    /// Signs `req` in the legacy version at the present time, given its body.
    pub fn sign_request_v1(&self, req: &mut Request, body: &str) -> (r: Result<
        (),
        MAuthSignError,
    >)
        ensures
            exists|now: i64|
                signing_outcome(
                    Version::Legacy,
                    self.key(),
                    self.id(),
                    *old(req),
                    *final(req),
                    encode_utf8(body@),
                    now as int,
                    r,
                ),
    {
        let now = unix_now();
        self.sign_request_at(Version::Legacy, req, body.as_bytes(), now)
    }

    /// The signed request that fetches the public key of `id` at Unix time
    /// `now`, in the current version whatever version is being checked.
    pub fn key_request(&self, id: u128, now: i64) -> (r: Option<Request>)
        ensures
            match r {
                Some(req) => self.key_request_possible(id, now as int) && self.key_request_ok(
                    id,
                    now as int,
                    req,
                ),
                None => !self.key_request_possible(id, now as int),
            },
    {
        let mut uri = self.mauth_uri_base.clone();
        let id_text = uuid_string(id);
        uri.append(id_text.as_str());
        let mut req = match Request::new("GET", uri.as_str()) {
            Some(req) => req,
            None => {
                return None;
            },
        };
        assert(headers_view(req.headers@) =~= Seq::<(Seq<char>, Seq<char>)>::empty());
        let empty: Vec<u8> = Vec::new();
        let digest = body_digest(empty.as_slice());
        assert(empty@ =~= Seq::<u8>::empty());
        match self.sign_request_at(Version::Current, &mut req, digest.as_str().as_bytes(), now) {
            Ok(()) => Some(req),
            Err(_) => None,
        }
    }

    /// The cached public key of `id`, if it has been fetched.
    pub fn cached_key(&self, id: u128) -> (r: Option<Vec<u8>>)
        ensures
            match r {
                Some(k) => self.cache().contains_key(id) && k@ == self.cache()[id],
                None => !self.cache().contains_key(id),
            },
    {
        broadcast use vstd::std_specs::hash::group_hash_axioms;

        match self.remote_key_store.get(&id) {
            Some(k) => Some(k.clone()),
            None => None,
        }
    }

    /// Resolves the public key of `id`: from the cache if it is there; else,
    /// before a fetch, the signed request that fetches it; after one, the key
    /// that the answer carries, which is then cached.
    pub fn resolve_key(&mut self, id: u128, fetched: KeyFetch, now: i64) -> (r: KeyResolution)
        ensures
            old(self).resolves(&*final(self), id, fetched, now as int, r),
    {
        broadcast use vstd::std_specs::hash::group_hash_axioms;

        match self.cached_key(id) {
            Some(k) => {
                return KeyResolution::Known(k);
            },
            None => {},
        }
        match fetched {
            KeyFetch::NotYet => match self.key_request(id, now) {
                Some(req) => KeyResolution::Fetch(req),
                None => KeyResolution::Unavailable,
            },
            KeyFetch::TransportFailed => KeyResolution::Unavailable,
            KeyFetch::Received(body) => match parse_key_document(body.as_slice()) {
                Some(k) => {
                    let ghost before = self.cache();
                    self.remote_key_store.insert(id, k.clone());
                    assert(self.cache() =~= before.insert(id, k@));
                    KeyResolution::Known(k)
                },
                None => KeyResolution::Unavailable,
            },
        }
    }

    /// One step of validating a response in `version` at Unix time `now`.
    pub fn validate_response_at(
        &mut self,
        version: Version,
        response: &Response,
        now: i64,
        fetched: KeyFetch,
    ) -> (r: ValidationStep)
        ensures
            validation_step(*old(self), *final(self), version, *response, now as int, fetched, r),
    {
        let pending = match check_response(version, response, now) {
            Ok(p) => p,
            Err(e) => {
                return ValidationStep::Done(Err(e));
            },
        };
        let ghost before = *self;
        let ghost signer = pending.signer;
        let res = self.resolve_key(pending.signer, fetched, now);
        let ghost res_view = res;
        assert(before.resolves(&*self, signer, fetched, now as int, res_view));
        match res {
            KeyResolution::Known(k) => ValidationStep::Done(
                check_signature(version, k.as_slice(), response.status, pending),
            ),
            KeyResolution::Fetch(req) => ValidationStep::FetchKey(req),
            KeyResolution::Unavailable => ValidationStep::Done(
                Err(MAuthValidationError::KeyUnavailable),
            ),
        }
    }

    /// One step of validating a response in the current version at the
    /// present time.
    pub fn validate_response_v2(&mut self, response: &Response, fetched: KeyFetch) -> (r:
        ValidationStep)
        ensures
            exists|now: i64|
                validation_step(
                    *old(self),
                    *final(self),
                    Version::Current,
                    *response,
                    now as int,
                    fetched,
                    r,
                ),
    {
        let now = unix_now();
        self.validate_response_at(Version::Current, response, now, fetched)
    }

    /// One step of validating a response in the legacy version at the
    /// present time.
    pub fn validate_response_v1(&mut self, response: &Response, fetched: KeyFetch) -> (r:
        ValidationStep)
        ensures
            exists|now: i64|
                validation_step(
                    *old(self),
                    *final(self),
                    Version::Legacy,
                    *response,
                    now as int,
                    fetched,
                    r,
                ),
    {
        let now = unix_now();
        self.validate_response_at(Version::Legacy, response, now, fetched)
    }

    /// The body bytes of a request and the hexadecimal SHA-512 digest that
    /// the current version signs in their place.
    pub fn build_body_with_digest(body: String) -> (r: (Vec<u8>, String))
        ensures
            r.0@ == encode_utf8(body@),
            r.1@ == digest_text(encode_utf8(body@)),
            r.1@.len() == 128,
    {
        let mut bytes: Vec<u8> = Vec::new();
        append_bytes(&mut bytes, body.as_str().as_bytes());
        let digest = body_digest(bytes.as_slice());
        (bytes, digest)
    }
}

/// A response whose time header is present and within the replay window but
/// which has no signature header fails with `NoSig`.
pub proof fn lemma_missing_signature_header(version: Version, resp: Response, now: int, t: Seq<u8>)
    requires
        header_value(resp.headers@, time_header_name(version)) == Some(t),
        timestamp_value(t) is Some,
        within_window(timestamp_value(t)->0, now),
        header_value(resp.headers@, auth_header_name(version)) is None,
    ensures
        response_checks(version, resp, now) == Err::<
            (u128, Seq<u8>, Seq<u8>, Seq<u8>),
            MAuthValidationError,
        >(MAuthValidationError::NoSig),
{
}

/// A response whose timestamp lies more than the replay window away from the
/// present fails with `InvalidTime`, whatever else it carries; one exactly at
/// the window's edge passes the time check.
pub proof fn lemma_replay_window_enforced(version: Version, resp: Response, now: int, t: Seq<u8>)
    requires
        header_value(resp.headers@, time_header_name(version)) == Some(t),
        timestamp_value(t) is Some,
    ensures
        !within_window(timestamp_value(t)->0, now) ==> response_checks(version, resp, now)
            == Err::<(u128, Seq<u8>, Seq<u8>, Seq<u8>), MAuthValidationError>(
            MAuthValidationError::InvalidTime,
        ),
        timestamp_value(t)->0 == now - REPLAY_WINDOW ==> response_checks(version, resp, now)
            != Err::<(u128, Seq<u8>, Seq<u8>, Seq<u8>), MAuthValidationError>(
            MAuthValidationError::InvalidTime,
        ),
{
}

/// Once a key has been resolved, resolving the same identity again needs no
/// fetch, makes no insert, and returns the identical key.
pub proof fn lemma_resolved_key_is_reused(
    s0: MAuthInfo,
    s1: MAuthInfo,
    s2: MAuthInfo,
    id: u128,
    f1: KeyFetch,
    f2: KeyFetch,
    now1: int,
    now2: int,
    r1: KeyResolution,
    r2: KeyResolution,
)
    requires
        s0.resolves(&s1, id, f1, now1, r1),
        s1.resolves(&s2, id, f2, now2, r2),
        r1 is Known,
    ensures
        s2.cache() == s1.cache(),
        match (r1, r2) {
            (KeyResolution::Known(a), KeyResolution::Known(b)) => a@ == b@,
            _ => false,
        },
{
}

/// A legacy signature is accepted only where what it recovers is the SHA-512
/// digest of the response string: a signature made for another body fails
/// unless the two bodies' response strings share a digest.
pub proof fn lemma_legacy_compares_content(
    key: Seq<u8>,
    status: u16,
    signer: u128,
    sig: Seq<u8>,
    ts: Seq<u8>,
    body: Seq<u8>,
)
    requires
        signature_outcome(Version::Legacy, key, status, signer, sig, ts, body) is Ok,
    ensures
        rsa_public_recover(key, sig) == Some(sha512_of(response_string(status, body, signer, ts))),
{
}

} // verus!
