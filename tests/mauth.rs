use sha2::Digest;
use mauth_audit::canonical::{canonicalize_request, canonicalize_response, Version};
use mauth_audit::encoding::decimal_string;
use mauth_audit::client::{
    check_signature, key_pair_matches, KeyFetch, MAuthConfigError, MAuthInfo, MAuthValidationError,
    PendingCheck, Request, Response, ValidationStep,
};
use mauth_audit::headers::{parse_timestamp, split_auth_string, validate_timestamp};

/// The primes of the fixed 2048-bit test key pair, in decimal.
const TEST_PRIME_P: &str = "1606967886937843949313920226366725954430177755818611943142770328782224\
    7445253393587773685219796295941518031772906186272318438422513497607805\
    3931303155154798264158530401970255923109584484069735546507477211156631\
    5335242642386235364941011934639275913314650852518650227688432013010919\
    42790710118656239110293137131";

const TEST_PRIME_Q: &str = "1276404652088330341372770505451571714020123406801551014026477227439691\
    9913981257614550446532142482698893228120756496113241145511833278025515\
    4255021202194655840566067196373668677398997085480972523414193117140990\
    2616611840804953648275336462057766920552554302174596013058502522713223\
    17576304791365040001781450047";

/// The signature, as a big-endian number in decimal, that the fixed key pair
/// makes over the canonical request of the golden scenario.
const GOLDEN_SIGNATURE: &str = "1754684803347700877311245821899004305624813079145122919229147388561981\
    7892597696244303378498223397558747350440615087276587706299798471980570\
    2375293169575606731095579944048172805658904180919609757654329431105779\
    1814263053762639609422092313070402766792118197616132598371874794738909\
    3450114654593459696454480796210176290478543221946219317836830153951788\
    0290564915428505682230449588226701524133589881004030911948247586160210\
    8766719124533079476588830882009423961883416274044500708562744927869433\
    1423567853230854317780229193186707058342546327717539263958850328929418\
    064903309774327862691248996071216976703689196724450643707";

const APP_ID: &str = "11111111-1111-1111-1111-111111111111";

const SIGNER_ID: u128 = 0x11111111_1111_1111_1111_111111111111;

const NOW: i64 = 1_600_000_000;

fn big(s: &str) -> openssl::bn::BigNum {
    openssl::bn::BigNum::from_dec_str(s).unwrap()
}

/// The fixed test key pair, rebuilt from its primes with exponent 65537.
fn test_rsa() -> openssl::rsa::Rsa<openssl::pkey::Private> {
    let mut ctx = openssl::bn::BigNumContext::new().unwrap();
    let one = openssl::bn::BigNum::from_u32(1).unwrap();
    let (p, q) = (big(TEST_PRIME_P), big(TEST_PRIME_Q));
    let e = openssl::bn::BigNum::from_u32(65537).unwrap();
    let mut n = openssl::bn::BigNum::new().unwrap();
    n.checked_mul(&p, &q, &mut ctx).unwrap();
    let mut p1 = openssl::bn::BigNum::new().unwrap();
    p1.checked_sub(&p, &one).unwrap();
    let mut q1 = openssl::bn::BigNum::new().unwrap();
    q1.checked_sub(&q, &one).unwrap();
    let mut phi = openssl::bn::BigNum::new().unwrap();
    phi.checked_mul(&p1, &q1, &mut ctx).unwrap();
    let mut d = openssl::bn::BigNum::new().unwrap();
    d.mod_inverse(&e, &phi, &mut ctx).unwrap();
    let mut dmp1 = openssl::bn::BigNum::new().unwrap();
    dmp1.nnmod(&d, &p1, &mut ctx).unwrap();
    let mut dmq1 = openssl::bn::BigNum::new().unwrap();
    dmq1.nnmod(&d, &q1, &mut ctx).unwrap();
    let mut iqmp = openssl::bn::BigNum::new().unwrap();
    iqmp.mod_inverse(&q, &p, &mut ctx).unwrap();
    openssl::rsa::Rsa::from_private_components(n, e, d, p, q, dmp1, dmq1, iqmp).unwrap()
}

fn private_pem() -> Vec<u8> {
    test_rsa().private_key_to_pem().unwrap()
}

fn public_pem() -> String {
    String::from_utf8(test_rsa().public_key_to_pem().unwrap()).unwrap()
}

fn other_public_pem() -> String {
    let other = openssl::rsa::Rsa::generate(2048).unwrap();
    String::from_utf8(other.public_key_to_pem().unwrap()).unwrap()
}

fn client() -> MAuthInfo {
    MAuthInfo::from_config(
        APP_ID,
        "https://mauth.example.com",
        "v1",
        &private_pem(),
    )
    .unwrap()
}

fn key_document(pem: &str) -> Vec<u8> {
    format!(
        "{{\"security_token\":{{\"public_key_str\":{}}}}}",
        serde_json::to_string(pem).unwrap()
    )
    .into_bytes()
}

fn response_string(status: u16, body: &[u8], ts: &str) -> Vec<u8> {
    format!(
        "{}\n{}\n{}\n{}",
        status,
        hex::encode(sha2::Sha512::digest(body)),
        APP_ID,
        ts
    )
    .into_bytes()
}

fn sign_current(msg: &[u8]) -> Vec<u8> {
    let key = openssl::pkey::PKey::from_rsa(test_rsa()).unwrap();
    let mut signer =
        openssl::sign::Signer::new(openssl::hash::MessageDigest::sha512(), &key).unwrap();
    signer.update(msg).unwrap();
    signer.sign_to_vec().unwrap()
}

fn sign_legacy(msg: &[u8]) -> Vec<u8> {
    let rsa = test_rsa();
    let digest = sha2::Sha512::digest(msg);
    let mut out = vec![0u8; rsa.size() as usize];
    let n = rsa.private_encrypt(&digest, &mut out, openssl::rsa::Padding::PKCS1).unwrap();
    out.truncate(n);
    out
}

fn signed_response(version: Version, status: u16, body: &[u8], ts: &str) -> Response {
    let canonical = response_string(status, body, ts);
    let (time_name, auth_name, auth) = match version {
        Version::Current => (
            "mcc-time",
            "mcc-authentication",
            format!("MWSV2 {}:{};", APP_ID, base64::encode(sign_current(&canonical))),
        ),
        Version::Legacy => (
            "x-mws-time",
            "x-mws-authentication",
            format!("MWS {}:{}", APP_ID, base64::encode(sign_legacy(&canonical))),
        ),
    };
    Response {
        status,
        headers: vec![
            ("content-type".to_string(), b"application/json".to_vec()),
            (time_name.to_string(), ts.as_bytes().to_vec()),
            (auth_name.to_string(), auth.into_bytes()),
        ],
        body: Some(body.to_vec()),
    }
}

fn done(step: ValidationStep) -> Result<String, MAuthValidationError> {
    match step {
        ValidationStep::Done(r) => r,
        ValidationStep::FetchKey(_) => panic!("unexpected key fetch"),
    }
}

fn validate(version: Version, resp: &Response, now: i64) -> Result<String, MAuthValidationError> {
    let mut info = client();
    done(info.validate_response_at(
        version,
        resp,
        now,
        KeyFetch::Received(key_document(&public_pem())),
    ))
}

fn header<'a>(req: &'a Request, name: &str) -> &'a str {
    req.headers
        .iter()
        .find(|(n, _)| n == name)
        .map(|(_, v)| v.as_str())
        .unwrap()
}

#[test]
fn canonical_request_is_pure_and_exact() {
    let a = canonicalize_request(Version::Current, "POST", "/v1/audits", "{\"audits\":[]}", SIGNER_ID, b"1600000000");
    let b = canonicalize_request(Version::Current, "POST", "/v1/audits", "{\"audits\":[]}", SIGNER_ID, b"1600000000");
    assert_eq!(a, b);
    assert_eq!(
        String::from_utf8(a).unwrap(),
        "POST\n/v1/audits\nd0c69aaaf1ff8917a4697e917c3cbb161b545fe52acbe1f375b8a02813f69d79dffb3d5105e783a0d5917e2bd0e8b93c74fccd0d8682719b4478694d93e9617e\n11111111-1111-1111-1111-111111111111\n1600000000\n"
    );
}

#[test]
fn canonical_request_legacy_uses_raw_body() {
    let r = canonicalize_request(Version::Legacy, "GET", "/p/q", "raw body", 0xabcdef, b"42");
    assert_eq!(
        String::from_utf8(r).unwrap(),
        "GET\n/p/q\nraw body\n00000000-0000-0000-0000-000000abcdef\n42\n"
    );
}

#[test]
fn canonical_response_is_exact() {
    let r = canonicalize_response(200, b"hello", 0x22222222_2222_2222_2222_222222222222, b"1600000000");
    assert_eq!(
        String::from_utf8(r).unwrap(),
        "200\n9b71d224bd62f3785d96d46ad3ea3d73319bfbc2890caadae2dff72519673ca72323c3d99ba5c11d7c7acc6e14b8c5da0c4663475c2e5c3adef46f73bcdec043\n22222222-2222-2222-2222-222222222222\n1600000000"
    );
}

#[test]
fn body_digest_of_empty_body() {
    let (bytes, digest) = MAuthInfo::build_body_with_digest(String::new());
    assert!(bytes.is_empty());
    assert_eq!(
        digest,
        "cf83e1357eefb8bdf1542850d66d8007d620e4050b5715dc83f4a921d36ce9ce47d0d13c5d85f2b0ff8318d2877eec2f63b931bd47417a81a538327af927da3e"
    );
}

#[test]
fn golden_current_signature_header() {
    let info = client();
    let (_, digest) = MAuthInfo::build_body_with_digest("{\"audits\":[]}".to_string());
    let mut req = Request::new("POST", "https://audits.example.com/v1/audits").unwrap();
    assert_eq!(req.path, "/v1/audits");
    assert_eq!(info.sign_request_at(Version::Current, &mut req, digest.as_bytes(), NOW), Ok(()));
    assert_eq!(header(&req, "mcc-time"), "1600000000");
    let golden = big(GOLDEN_SIGNATURE).to_vec_padded(256).unwrap();
    let expected = format!("MWSV2 {}:{};", APP_ID, base64::encode(golden));
    assert_eq!(header(&req, "mcc-authentication"), expected);
    assert_eq!(req.headers.len(), 2);
}

#[test]
fn signing_again_replaces_headers() {
    let info = client();
    let mut req = Request::new("GET", "https://audits.example.com/x").unwrap();
    info.sign_request_at(Version::Current, &mut req, b"d", NOW).unwrap();
    info.sign_request_at(Version::Current, &mut req, b"d", NOW + 1).unwrap();
    assert_eq!(req.headers.len(), 2);
    assert_eq!(header(&req, "mcc-time"), "1600000001");
}

#[test]
fn legacy_signature_header_shape() {
    let info = client();
    let mut req = Request::new("POST", "https://audits.example.com/v1/audits").unwrap();
    info.sign_request_at(Version::Legacy, &mut req, b"body", NOW).unwrap();
    assert_eq!(header(&req, "x-mws-time"), "1600000000");
    let auth = header(&req, "x-mws-authentication");
    let prefix = format!("MWS {}:", APP_ID);
    assert!(auth.starts_with(&prefix));
    assert!(!auth.ends_with(';'));
    let sig = base64::decode(&auth[prefix.len()..]).unwrap();
    let public = openssl::rsa::Rsa::public_key_from_pem(public_pem().as_bytes()).unwrap();
    let mut out = vec![0u8; public.size() as usize];
    let n = public.public_decrypt(&sig, &mut out, openssl::rsa::Padding::PKCS1).unwrap();
    let canonical = format!("POST\n/v1/audits\nbody\n{}\n1600000000\n", APP_ID);
    assert_eq!(&out[..n], sha2::Sha512::digest(canonical.as_bytes()).as_slice());
}

#[test]
fn current_signature_round_trip_and_tampering() {
    let resp = signed_response(Version::Current, 200, b"{\"ok\":true}", "1600000000");
    assert_eq!(validate(Version::Current, &resp, NOW), Ok("{\"ok\":true}".to_string()));

    let mut bad_sig = signed_response(Version::Current, 200, b"{\"ok\":true}", "1600000000");
    let auth = String::from_utf8(bad_sig.headers[2].1.clone()).unwrap();
    let start = auth.find(':').unwrap() + 1;
    let mut sig = base64::decode(&auth[start..auth.len() - 1]).unwrap();
    sig[10] ^= 0x01;
    bad_sig.headers[2].1 = format!("MWSV2 {}:{};", APP_ID, base64::encode(&sig)).into_bytes();
    assert_eq!(
        validate(Version::Current, &bad_sig, NOW),
        Err(MAuthValidationError::SignatureVerifyFailure)
    );

    let mut bad_body = signed_response(Version::Current, 200, b"{\"ok\":true}", "1600000000");
    bad_body.body = Some(b"{\"ok\":tru3}".to_vec());
    assert_eq!(
        validate(Version::Current, &bad_body, NOW),
        Err(MAuthValidationError::SignatureVerifyFailure)
    );

    let mut bad_status = signed_response(Version::Current, 200, b"{\"ok\":true}", "1600000000");
    bad_status.status = 201;
    assert_eq!(
        validate(Version::Current, &bad_status, NOW),
        Err(MAuthValidationError::SignatureVerifyFailure)
    );
}

#[test]
fn wrong_public_key_fails() {
    let resp = signed_response(Version::Current, 200, b"x", "1600000000");
    let mut info = client();
    let step = info.validate_response_at(
        Version::Current,
        &resp,
        NOW,
        KeyFetch::Received(key_document(&other_public_pem())),
    );
    assert_eq!(done(step), Err(MAuthValidationError::SignatureVerifyFailure));
}

#[test]
fn replay_window_boundary() {
    let at_edge = signed_response(Version::Current, 200, b"a", "1599999700");
    assert_eq!(validate(Version::Current, &at_edge, NOW), Ok("a".to_string()));
    let future_edge = signed_response(Version::Current, 200, b"a", "1600000300");
    assert_eq!(validate(Version::Current, &future_edge, NOW), Ok("a".to_string()));
    let stale = signed_response(Version::Current, 200, b"a", "1599999699");
    assert_eq!(validate(Version::Current, &stale, NOW), Err(MAuthValidationError::InvalidTime));
    let early = signed_response(Version::Current, 200, b"a", "1600000301");
    assert_eq!(validate(Version::Current, &early, NOW), Err(MAuthValidationError::InvalidTime));
}

#[test]
fn validate_timestamp_edges() {
    assert_eq!(validate_timestamp(b"1599999700", NOW), Ok(1599999700));
    assert_eq!(validate_timestamp(b"1599999699", NOW), Err(MAuthValidationError::InvalidTime));
    assert_eq!(validate_timestamp(b"16OO000000", NOW), Err(MAuthValidationError::InvalidTime));
    assert_eq!(validate_timestamp(b"-9223372036854775808", NOW), Err(MAuthValidationError::InvalidTime));
}

#[test]
fn parse_timestamp_follows_i64_text() {
    assert_eq!(parse_timestamp(b"0"), Some(0));
    assert_eq!(parse_timestamp(b"+17"), Some(17));
    assert_eq!(parse_timestamp(b"-17"), Some(-17));
    assert_eq!(parse_timestamp(b"9223372036854775807"), Some(i64::MAX));
    assert_eq!(parse_timestamp(b"9223372036854775808"), None);
    assert_eq!(parse_timestamp(b"-9223372036854775808"), Some(i64::MIN));
    assert_eq!(parse_timestamp(b"-9223372036854775809"), None);
    assert_eq!(parse_timestamp(b""), None);
    assert_eq!(parse_timestamp(b"-"), None);
    assert_eq!(parse_timestamp(b"+"), None);
    assert_eq!(parse_timestamp(b" 1"), None);
    assert_eq!(parse_timestamp(b"1a"), None);
}

#[test]
fn missing_signature_header_is_nosig() {
    let mut resp = signed_response(Version::Current, 200, b"a", "1600000000");
    resp.headers.remove(2);
    assert_eq!(validate(Version::Current, &resp, NOW), Err(MAuthValidationError::NoSig));
}

#[test]
fn missing_time_header_is_notime() {
    let mut resp = signed_response(Version::Current, 200, b"a", "1600000000");
    resp.headers.remove(1);
    assert_eq!(validate(Version::Current, &resp, NOW), Err(MAuthValidationError::NoTime));
}

#[test]
fn malformed_signature_header_is_invalid_signature() {
    let mut resp = signed_response(Version::Current, 200, b"a", "1600000000");
    resp.headers[2].1 = format!("MWS {}:AAAA;", APP_ID).into_bytes();
    assert_eq!(validate(Version::Current, &resp, NOW), Err(MAuthValidationError::InvalidSignature));
    resp.headers[2].1 = b"MWSV2 not-a-uuid:AAAA;".to_vec();
    assert_eq!(validate(Version::Current, &resp, NOW), Err(MAuthValidationError::InvalidSignature));
    resp.headers[2].1 = format!("MWSV2 {}:@@@@;", APP_ID).into_bytes();
    assert_eq!(validate(Version::Current, &resp, NOW), Err(MAuthValidationError::InvalidSignature));
    resp.headers[2].1 = format!("MWSV2 {}", APP_ID).into_bytes();
    assert_eq!(validate(Version::Current, &resp, NOW), Err(MAuthValidationError::InvalidSignature));
    resp.headers[2].1 = format!("MWSV2 {}:AAAA;\u{7f}", APP_ID).into_bytes();
    assert_eq!(validate(Version::Current, &resp, NOW), Err(MAuthValidationError::InvalidSignature));
}

#[test]
fn split_auth_string_fields() {
    let (id, sig) = split_auth_string(Version::Current, format!("MWSV2 {}:AAEC;", APP_ID).as_bytes()).unwrap();
    assert_eq!(id, SIGNER_ID);
    assert_eq!(sig, vec![0u8, 1, 2]);
    let (id, sig) = split_auth_string(Version::Legacy, format!("MWS {}:AAEC", APP_ID).as_bytes()).unwrap();
    assert_eq!(id, SIGNER_ID);
    assert_eq!(sig, vec![0u8, 1, 2]);
    assert_eq!(
        split_auth_string(Version::Legacy, format!("MWSV2 {}:AAEC;", APP_ID).as_bytes()),
        Err(MAuthValidationError::InvalidSignature)
    );
}

#[test]
fn unreadable_body_is_response_problem() {
    let mut resp = signed_response(Version::Current, 200, b"a", "1600000000");
    resp.body = None;
    assert_eq!(validate(Version::Current, &resp, NOW), Err(MAuthValidationError::ResponseProblem));
}

#[test]
fn non_utf8_body_is_invalid_body() {
    let resp = signed_response(Version::Current, 200, &[0xff, 0xfe], "1600000000");
    assert_eq!(validate(Version::Current, &resp, NOW), Err(MAuthValidationError::InvalidBody));
}

#[test]
fn key_unavailable_when_fetch_fails() {
    let resp = signed_response(Version::Current, 200, b"a", "1600000000");
    let mut info = client();
    assert_eq!(
        done(info.validate_response_at(Version::Current, &resp, NOW, KeyFetch::TransportFailed)),
        Err(MAuthValidationError::KeyUnavailable)
    );
    assert_eq!(
        done(info.validate_response_at(
            Version::Current,
            &resp,
            NOW,
            KeyFetch::Received(b"{\"security_token\":{}}".to_vec())
        )),
        Err(MAuthValidationError::KeyUnavailable)
    );
    assert_eq!(info.cached_key(SIGNER_ID), None);
}

#[test]
fn key_is_fetched_once_then_cached() {
    let resp = signed_response(Version::Current, 200, b"cached", "1600000000");
    let mut info = client();
    let req = match info.validate_response_at(Version::Current, &resp, NOW, KeyFetch::NotYet) {
        ValidationStep::FetchKey(req) => req,
        ValidationStep::Done(r) => panic!("expected a key fetch, got {:?}", r),
    };
    assert_eq!(req.method, "GET");
    assert_eq!(
        req.uri,
        "https://mauth.example.com/mauth/v1/security_tokens/11111111-1111-1111-1111-111111111111"
    );
    assert_eq!(req.path, "/mauth/v1/security_tokens/11111111-1111-1111-1111-111111111111");
    assert_eq!(header(&req, "mcc-time"), "1600000000");
    assert!(header(&req, "mcc-authentication").starts_with("MWSV2 11111111-1111-1111-1111-111111111111:"));

    let first = done(info.validate_response_at(
        Version::Current,
        &resp,
        NOW,
        KeyFetch::Received(key_document(&public_pem())),
    ));
    assert_eq!(first, Ok("cached".to_string()));
    let key = info.cached_key(SIGNER_ID).unwrap();

    let second = done(info.validate_response_at(Version::Current, &resp, NOW, KeyFetch::NotYet));
    assert_eq!(second, Ok("cached".to_string()));
    let third = done(info.validate_response_at(
        Version::Current,
        &resp,
        NOW,
        KeyFetch::Received(key_document(&other_public_pem())),
    ));
    assert_eq!(third, Ok("cached".to_string()));
    assert_eq!(info.cached_key(SIGNER_ID), Some(key));
}

#[test]
fn legacy_round_trip_and_tampered_body() {
    let resp = signed_response(Version::Legacy, 200, b"legacy", "1600000000");
    assert_eq!(validate(Version::Legacy, &resp, NOW), Ok("legacy".to_string()));
    let mut tampered = signed_response(Version::Legacy, 200, b"legacy", "1600000000");
    tampered.body = Some(b"legacz".to_vec());
    assert_eq!(
        validate(Version::Legacy, &tampered, NOW),
        Err(MAuthValidationError::SignatureVerifyFailure)
    );
}

#[test]
fn legacy_response_needs_legacy_headers() {
    let resp = signed_response(Version::Current, 200, b"a", "1600000000");
    assert_eq!(validate(Version::Legacy, &resp, NOW), Err(MAuthValidationError::NoTime));
}

#[test]
fn check_signature_with_bad_key_bytes() {
    let pending = PendingCheck {
        signer: SIGNER_ID,
        signature: vec![1, 2, 3],
        timestamp: b"1600000000".to_vec(),
        body: b"a".to_vec(),
    };
    assert_eq!(
        check_signature(Version::Legacy, b"not a key", 200, pending),
        Err(MAuthValidationError::SignatureVerifyFailure)
    );
}

#[test]
fn config_errors() {
    assert!(matches!(
        MAuthInfo::from_config("not-a-uuid", "https://mauth.example.com", "v1", &private_pem()),
        Err(MAuthConfigError::InvalidUuid)
    ));
    assert!(matches!(
        MAuthInfo::from_config(APP_ID, "https://mauth.example.com", "v1", b"no key here"),
        Err(MAuthConfigError::KeyLoadError)
    ));
    assert!(matches!(
        MAuthInfo::from_config(APP_ID, "https://bad host", "v1", &private_pem()),
        Err(MAuthConfigError::InvalidUri)
    ));
}

#[test]
fn non_rsa_key_is_refused_at_setup() {
    let ec = openssl::ec::EcKey::generate(
        &openssl::ec::EcGroup::from_curve_name(openssl::nid::Nid::X9_62_PRIME256V1).unwrap(),
    )
    .unwrap();
    let pem = ec.private_key_to_pem().unwrap();
    assert!(matches!(
        MAuthInfo::from_config(APP_ID, "https://mauth.example.com", "v1", &pem),
        Err(MAuthConfigError::InvalidKey)
    ));
}

#[test]
fn encrypted_key_fails_without_prompt() {
    let pem = test_rsa()
        .private_key_to_pem_passphrase(openssl::symm::Cipher::aes_128_cbc(), b"secret words")
        .unwrap();
    assert!(matches!(
        MAuthInfo::from_config(APP_ID, "https://mauth.example.com", "v1", &pem),
        Err(MAuthConfigError::KeyLoadError)
    ));
}

#[test]
fn signing_at_present_time() {
    let info = client();
    let mut req = Request::new("GET", "https://audits.example.com/x").unwrap();
    info.sign_request_v2(&mut req, "d").unwrap();
    let ts: i64 = header(&req, "mcc-time").parse().unwrap();
    assert!(ts > NOW);
    info.sign_request_v1(&mut req, "body").unwrap();
    assert_eq!(req.headers.len(), 4);
}

#[test]
fn validating_at_present_time() {
    let mut info = client();
    let resp = signed_response(Version::Current, 200, b"a", "1600000000");
    let step = info.validate_response_v2(&resp, KeyFetch::Received(key_document(&public_pem())));
    assert_eq!(done(step), Err(MAuthValidationError::InvalidTime));
    let step = info.validate_response_v1(&resp, KeyFetch::NotYet);
    assert_eq!(done(step), Err(MAuthValidationError::NoTime));
}

#[test]
fn key_pair_check() {
    assert!(key_pair_matches(&private_pem(), public_pem().as_bytes(), b"test string"));
    assert!(!key_pair_matches(&private_pem(), other_public_pem().as_bytes(), b"test string"));
    assert!(!key_pair_matches(b"junk", public_pem().as_bytes(), b"test string"));
}

#[test]
fn decimal_text_of_integers() {
    assert_eq!(decimal_string(0), "0");
    assert_eq!(decimal_string(1600000000), "1600000000");
    assert_eq!(decimal_string(-42), "-42");
    assert_eq!(decimal_string(i64::MAX), "9223372036854775807");
    assert_eq!(decimal_string(i64::MIN), "-9223372036854775808");
}
