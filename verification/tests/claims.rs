use std::time::{SystemTime, UNIX_EPOCH};

use wascap::jwt::{Claims, Component};
use wascap::prelude::KeyPair;
use wasmcloud_runtime::claims::{accept, claims};
use wasmcloud_runtime::{EmbeddedToken, LoadError, TokenFault, TokenValidation};

const MODULE: [u8; 8] = [0x00, 0x61, 0x73, 0x6d, 0x01, 0x00, 0x00, 0x00];

fn seconds_now() -> u64 {
    SystemTime::now().duration_since(UNIX_EPOCH).unwrap().as_secs()
}

fn new_claims(
    account: &KeyPair,
    not_before: Option<u64>,
    expires: Option<u64>,
) -> Claims<Component> {
    Claims::<Component>::with_dates(
        "echo".to_string(),
        account.public_key(),
        KeyPair::new_module().public_key(),
        Some(vec!["test".to_string()]),
        not_before,
        expires,
        false,
        Some(1),
        Some("0.1.0".to_string()),
        None,
    )
}

/// A module that carries the claims, signed by `signer`.
fn signed_by(signer: &KeyPair, claims: &Claims<Component>) -> Vec<u8> {
    wascap::wasm::embed_claims(&MODULE, claims, signer).unwrap()
}

fn signed_module(not_before: Option<u64>, expires: Option<u64>) -> Vec<u8> {
    let account = KeyPair::new_account();
    signed_by(&account, &new_claims(&account, not_before, expires))
}

fn leb128(mut n: usize) -> Vec<u8> {
    let mut bytes = Vec::new();
    loop {
        let low = (n & 0x7f) as u8;
        n >>= 7;
        if n == 0 {
            bytes.push(low);
            return bytes;
        }
        bytes.push(low | 0x80);
    }
}

/// A module with one custom section of the given name and content.
fn with_custom_section(name: &str, data: &[u8]) -> Vec<u8> {
    let mut section = leb128(name.len());
    section.extend_from_slice(name.as_bytes());
    section.extend_from_slice(data);
    let mut wasm = MODULE.to_vec();
    wasm.push(0);
    wasm.extend(leb128(section.len()));
    wasm.extend(section);
    wasm
}

fn validation(expired: bool, cannot_use_yet: bool, signature_valid: bool) -> TokenValidation {
    TokenValidation {
        expired,
        cannot_use_yet,
        expires_human: "3 hours ago".to_string(),
        not_before_human: "in 2 weeks".to_string(),
        signature_valid,
    }
}

#[test]
fn validation_that_passes_has_no_fault() {
    assert_eq!(validation(false, false, true).check(), Ok(()));
}

#[test]
fn expiry_is_looked_at_first() {
    let expired = Err(TokenFault::Expired { at: "3 hours ago".to_string() });
    assert_eq!(validation(true, false, true).check(), expired);
    assert_eq!(validation(true, true, true).check(), expired);
    assert_eq!(validation(true, true, false).check(), expired);
    assert_eq!(validation(true, false, false).check(), expired);
}

#[test]
fn start_of_lifetime_is_looked_at_before_the_signature() {
    let early = Err(TokenFault::NotYetValid { until: "in 2 weeks".to_string() });
    assert_eq!(validation(false, true, true).check(), early);
    assert_eq!(validation(false, true, false).check(), early);
}

#[test]
fn signature_is_looked_at_last() {
    assert_eq!(validation(false, false, false).check(), Err(TokenFault::BadSignature));
}

#[test]
fn faults_have_their_text() {
    assert_eq!(TokenFault::Malformed.message(), "failed to validate module token");
    assert_eq!(
        TokenFault::Expired { at: "3 hours ago".to_string() }.message(),
        "token expired at `3 hours ago`"
    );
    assert_eq!(
        TokenFault::NotYetValid { until: "in 2 weeks".to_string() }.message(),
        "token cannot be used before `in 2 weeks`"
    );
    assert_eq!(TokenFault::BadSignature.message(), "signature is not valid");
}

#[test]
fn load_errors_have_their_text() {
    assert_eq!(LoadError::MalformedArtifact.message(), "failed to read Wasm");
    assert_eq!(LoadError::ClaimsExtractFailed.message(), "failed to extract module claims");
    assert_eq!(
        LoadError::TokenInvalid(TokenFault::Expired { at: "never".to_string() }).message(),
        "token expired at `never`"
    );
    assert_eq!(
        LoadError::TokenInvalid(TokenFault::BadSignature).message(),
        "signature is not valid"
    );
    assert_eq!(LoadError::SignatureRequiredButAbsent.message(), "signature is required");
    assert_eq!(LoadError::CompileFailed.message(), "failed to compile");
}

#[test]
fn accept_gives_the_claims_of_a_token_that_passes() {
    let account = KeyPair::new_account();
    let claims = new_claims(&account, None, None);
    let token = EmbeddedToken { jwt: "a.b.c".to_string(), claims: claims.clone() };
    assert_eq!(accept(token, Ok(validation(false, false, true))), Ok(claims));
}

#[test]
fn accept_refuses_a_token_with_a_fault() {
    let account = KeyPair::new_account();
    let claims = new_claims(&account, None, None);
    let token = |claims: &Claims<Component>| EmbeddedToken {
        jwt: "a.b.c".to_string(),
        claims: claims.clone(),
    };
    assert_eq!(
        accept(token(&claims), Ok(validation(true, false, true))),
        Err(LoadError::TokenInvalid(TokenFault::Expired { at: "3 hours ago".to_string() }))
    );
    assert_eq!(
        accept(token(&claims), Ok(validation(false, true, true))),
        Err(LoadError::TokenInvalid(TokenFault::NotYetValid { until: "in 2 weeks".to_string() }))
    );
    assert_eq!(
        accept(token(&claims), Ok(validation(false, false, false))),
        Err(LoadError::TokenInvalid(TokenFault::BadSignature))
    );
}

#[test]
fn accept_refuses_a_token_that_could_not_be_validated() {
    let account = KeyPair::new_account();
    let claims = new_claims(&account, None, None);
    let token = EmbeddedToken { jwt: "a.b.c".to_string(), claims };
    let failure = wascap::jwt::validate_token::<Component>("no token").unwrap_err();
    assert_eq!(accept(token, Err(failure)), Err(LoadError::TokenInvalid(TokenFault::Malformed)));
}

#[test]
fn unsigned_module_has_no_claims() {
    assert_eq!(claims(&MODULE), Ok(None));
}

#[test]
fn unsigned_component_has_no_claims() {
    assert_eq!(claims(&[0x00, 0x61, 0x73, 0x6d, 0x0d, 0x00, 0x01, 0x00]), Ok(None));
}

#[test]
fn other_custom_sections_are_no_claims() {
    assert_eq!(claims(&with_custom_section("name", b"anything")), Ok(None));
}

#[test]
fn valid_claims_are_returned() {
    let account = KeyPair::new_account();
    let embedded = new_claims(&account, None, None);
    let found = claims(&signed_by(&account, &embedded)).unwrap().unwrap();
    assert_eq!(found.subject, embedded.subject);
    assert_eq!(found.issuer, account.public_key());
    assert_eq!(found.id, embedded.id);
    assert_eq!(found.metadata.unwrap().name, Some("echo".to_string()));
}

#[test]
fn claims_within_their_lifetime_are_returned() {
    let wasm = signed_module(Some(seconds_now() - 3600), Some(seconds_now() + 3600));
    let found = claims(&wasm).unwrap().unwrap();
    assert_eq!(found.expires.map(|at| at > seconds_now()), Some(true));
}

#[test]
fn expired_claims_are_refused() {
    let result = claims(&signed_module(None, Some(seconds_now() - 1)));
    assert!(matches!(result, Err(LoadError::TokenInvalid(TokenFault::Expired { .. }))));
    let result = claims(&signed_module(None, Some(seconds_now() - 7200)));
    assert_eq!(
        result,
        Err(LoadError::TokenInvalid(TokenFault::Expired { at: "2h ago".to_string() }))
    );
}

#[test]
fn claims_before_their_lifetime_are_refused() {
    let result = claims(&signed_module(Some(seconds_now() + 3 * 86400 + 60), None));
    assert_eq!(
        result,
        Err(LoadError::TokenInvalid(TokenFault::NotYetValid { until: "in 3days".to_string() }))
    );
}

#[test]
fn expired_is_reported_before_not_yet_valid() {
    let result = claims(&signed_module(Some(seconds_now() + 3600), Some(seconds_now() - 3600)));
    assert!(matches!(result, Err(LoadError::TokenInvalid(TokenFault::Expired { .. }))));
}

#[test]
fn claims_signed_by_another_key_are_refused() {
    let account = KeyPair::new_account();
    let stranger = KeyPair::new_account();
    let result = claims(&signed_by(&stranger, &new_claims(&account, None, None)));
    assert_eq!(result, Err(LoadError::TokenInvalid(TokenFault::BadSignature)));
}

#[test]
fn expiry_of_a_badly_signed_token_is_reported_first() {
    let account = KeyPair::new_account();
    let stranger = KeyPair::new_account();
    let expired = new_claims(&account, None, Some(seconds_now() - 3600));
    let result = claims(&signed_by(&stranger, &expired));
    assert!(matches!(result, Err(LoadError::TokenInvalid(TokenFault::Expired { .. }))));
}

#[test]
fn badly_signed_token_is_refused_at_any_lifetime() {
    let account = KeyPair::new_account();
    let stranger = KeyPair::new_account();
    let lifetimes = [
        (None, None),
        (Some(seconds_now() - 60), Some(seconds_now() + 3600)),
        (Some(seconds_now() + 3600), None),
        (None, Some(seconds_now() - 60)),
    ];
    for (not_before, expires) in lifetimes {
        let result = claims(&signed_by(&stranger, &new_claims(&account, not_before, expires)));
        assert!(matches!(result, Err(LoadError::TokenInvalid(_))));
        assert_ne!(result, Err(LoadError::TokenInvalid(TokenFault::Malformed)));
    }
}

#[test]
fn token_that_cannot_be_validated_is_malformed() {
    let account = KeyPair::new_account();
    let proper = signed_by(&account, &new_claims(&account, None, None));
    let jwt = wascap::wasm::extract_claims(&proper).unwrap().unwrap().jwt;
    let cut = jwt.rfind('.').unwrap();
    let broken = format!("{}.!!!", &jwt[..cut]);
    let result = claims(&with_custom_section("wasmcloud_jwt", broken.as_bytes()));
    assert_eq!(result, Err(LoadError::TokenInvalid(TokenFault::Malformed)));
}

#[test]
fn token_that_cannot_be_decoded_fails_the_extraction() {
    let result = claims(&with_custom_section("wasmcloud_jwt", b"not a token"));
    assert_eq!(result, Err(LoadError::ClaimsExtractFailed));
}

#[test]
fn bytes_that_are_no_binary_fail_the_extraction() {
    assert_eq!(claims(b"hello, world"), Err(LoadError::ClaimsExtractFailed));
    assert_eq!(claims(&[]), Err(LoadError::ClaimsExtractFailed));
    assert_eq!(claims(&MODULE[..7]), Err(LoadError::ClaimsExtractFailed));
}

#[test]
fn artifact_changed_after_signing_fails_the_extraction() {
    let mut wasm = signed_module(None, None);
    let extra = with_custom_section("name", b"x");
    wasm.extend_from_slice(&extra[8..]);
    assert_eq!(claims(&wasm), Err(LoadError::ClaimsExtractFailed));
}
