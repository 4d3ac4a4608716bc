//! Claims embedded in an artifact: how they are extracted and when they are
//! accepted.

use crate::error::{LoadError, TokenFault};
use vstd::prelude::*;

verus! {

/// `wascap::jwt::Claims`: the claims of a token, carried through unread.
#[verifier::external_type_specification]
#[verifier::external_body]
#[verifier::reject_recursive_types(T)]
pub struct ExClaims<T>(wascap::jwt::Claims<T>);

/// `wascap::jwt::Component`: what the claims of an actor say of it.
#[verifier::external_type_specification]
#[verifier::external_body]
pub struct ExComponent(wascap::jwt::Component);

/// `wascap::Error`: why extracting or validating failed; only that it did
/// is looked at.
#[verifier::external_type_specification]
#[verifier::external_body]
pub struct ExError(wascap::Error);

/// The claims that an artifact carries about itself.
pub type ActorClaims = wascap::jwt::Claims<wascap::jwt::Component>;

/// A signed token as it was found in an artifact, with the claims decoded
/// from it.
#[derive(Debug, PartialEq)]
pub struct EmbeddedToken {
    pub jwt: String,
    pub claims: ActorClaims,
}

/// What validating a token gave.
#[derive(Clone, Debug, PartialEq, Eq)]
pub struct TokenValidation {
    /// Whether the token's lifetime is over
    pub expired: bool,
    /// Whether the token's lifetime has not begun
    pub cannot_use_yet: bool,
    /// When the token expires, in words
    pub expires_human: String,
    /// When the token becomes valid, in words
    pub not_before_human: String,
    /// Whether the signature belongs to the token's issuer
    pub signature_valid: bool,
}

/// The token that `wascap::wasm::extract_claims` finds in the bytes `wasm`:
/// `Ok(None)` where they carry none, `Err` where the extraction fails.
pub uninterp spec fn embedded_token(wasm: Seq<u8>) -> Result<Option<EmbeddedToken>, ()>;

/// `wascap::wasm::extract_claims`: scans the bytes for the custom section
/// that holds a token and decodes the claims from it. The outcome depends on
/// the bytes alone; it is [`embedded_token`] of them.
#[verifier::external_body]
fn extract_claims(wasm: &[u8]) -> (r: Result<Option<EmbeddedToken>, wascap::Error>)
    ensures
        match r {
            Ok(token) => embedded_token(wasm@) == Ok::<Option<EmbeddedToken>, ()>(token),
            Err(_) => embedded_token(wasm@) is Err,
        },
{
    match wascap::wasm::extract_claims(wasm) {
        Ok(Some(token)) => Ok(Some(EmbeddedToken { jwt: token.jwt, claims: token.claims })),
        Ok(None) => Ok(None),
        Err(e) => Err(e),
    }
}

/// What `wascap::jwt::validate_token` makes of the token `jwt` at any time:
/// `None` where it cannot validate the token, else whether the signature
/// belongs to the token's issuer.
pub uninterp spec fn token_signature(jwt: Seq<char>) -> Option<bool>;

/// `wascap::jwt::validate_token`, for the claims of a component: checks the
/// token's signature and holds its lifetime against the system clock.
/// Whether it fails, and whether the signature is valid, depend on the token
/// alone and are [`token_signature`] of it. What it says of the lifetime
/// changes with the time of the call, so nothing is stated of that.
#[verifier::external_body]
fn validate_token(jwt: &str) -> (r: Result<TokenValidation, wascap::Error>)
    ensures
        match r {
            Ok(validation) => token_signature(jwt@) == Some(validation.signature_valid),
            Err(_) => token_signature(jwt@) is None,
        },
{
    match wascap::jwt::validate_token::<wascap::jwt::Component>(jwt) {
        Ok(v) => Ok(
            TokenValidation {
                expired: v.expired,
                cannot_use_yet: v.cannot_use_yet,
                expires_human: v.expires_human,
                not_before_human: v.not_before_human,
                signature_valid: v.signature_valid,
            },
        ),
        Err(e) => Err(e),
    }
}

/// `Clone::clone` of `wascap::jwt::Claims`, which the type derives: the copy
/// holds the same claims, field by field.
#[verifier::external_body]
pub(crate) fn clone_claims(claims: &ActorClaims) -> (copy: ActorClaims)
    ensures
        copy == *claims,
{
    claims.clone()
}

impl TokenValidation {
    /// Whether the validation lets the token pass.
    pub open spec fn passes(self) -> bool {
        !self.expired && !self.cannot_use_yet && self.signature_valid
    }

    /// The fault that the validation finds with the token, if any: the
    /// expiry is looked at first, then the start of the lifetime, then the
    /// signature.
    pub open spec fn verdict(self) -> Result<(), TokenFault> {
        if self.expired {
            Err(TokenFault::Expired { at: self.expires_human })
        } else if self.cannot_use_yet {
            Err(TokenFault::NotYetValid { until: self.not_before_human })
        } else if !self.signature_valid {
            Err(TokenFault::BadSignature)
        } else {
            Ok(())
        }
    }

    /// Tells whether the token may be used, and why not.
    pub fn check(self) -> (r: Result<(), TokenFault>)
        ensures
            r == self.verdict(),
            r is Ok <==> self.passes(),
    {
        if self.expired {
            Err(TokenFault::Expired { at: self.expires_human })
        } else if self.cannot_use_yet {
            Err(TokenFault::NotYetValid { until: self.not_before_human })
        } else if !self.signature_valid {
            Err(TokenFault::BadSignature)
        } else {
            Ok(())
        }
    }
}

/// The fault found with a token, given what its validation gave: a
/// validation that failed makes the token malformed, one that succeeded is
/// judged by its verdict.
pub open spec fn token_verdict(validation: Result<TokenValidation, wascap::Error>) -> Result<
    (),
    TokenFault,
> {
    match validation {
        Ok(validation) => validation.verdict(),
        Err(_) => Err(TokenFault::Malformed),
    }
}

/// The claims that loading accepts from a token, given what validating the
/// token gave.
///
/// The token's claims come back exactly where the validation succeeded and
/// passes; else the token's fault is the error.
pub fn accept(token: EmbeddedToken, validation: Result<TokenValidation, wascap::Error>) -> (r:
    Result<ActorClaims, LoadError>)
    ensures
        match token_verdict(validation) {
            Ok(()) => r == Ok::<ActorClaims, LoadError>(token.claims),
            Err(fault) => r == Err::<ActorClaims, LoadError>(LoadError::TokenInvalid(fault)),
        },
        r is Ok <==> (validation matches Ok(v) && v.passes()),
{
    match validation {
        Err(_) => Err(LoadError::TokenInvalid(TokenFault::Malformed)),
        Ok(validation) => match validation.check() {
            Ok(()) => Ok(token.claims),
            Err(fault) => Err(LoadError::TokenInvalid(fault)),
        },
    }
}

/// Whether validating the token `jwt` can give `validation` at some time:
/// it fails exactly where the token cannot be validated, and else tells of
/// the signature what the token decides.
pub open spec fn validates(jwt: Seq<char>, validation: Result<TokenValidation, wascap::Error>)
    -> bool {
    match validation {
        Ok(validation) => token_signature(jwt) == Some(validation.signature_valid),
        Err(_) => token_signature(jwt) is None,
    }
}

/// Whether `validation` can be what validating the token of an artifact
/// gave, where extracting the token gave `found`. Without a token nothing is
/// validated, and nothing is asked of `validation`.
pub open spec fn validation_of(
    found: Result<Option<EmbeddedToken>, ()>,
    validation: Result<TokenValidation, wascap::Error>,
) -> bool {
    found matches Ok(Some(token)) ==> validates(token.jwt@, validation)
}

/// A token is accepted only where it can be validated and its signature
/// belongs to its issuer; a token that cannot be validated is malformed.
pub proof fn law_signature_decides(
    token: EmbeddedToken,
    validation: Result<TokenValidation, wascap::Error>,
)
    requires
        validates(token.jwt@, validation),
    ensures
        token_verdict(validation) is Ok ==> token_signature(token.jwt@) == Some(true),
        token_signature(token.jwt@) is None <==> token_verdict(validation) == Err::<
            (),
            TokenFault,
        >(TokenFault::Malformed),
{
}

/// What [`claims`] gives for bytes whose extraction gave `found`, where
/// validating the token, if one was found, gave `validation`.
pub open spec fn claims_outcome(
    found: Result<Option<EmbeddedToken>, ()>,
    validation: Result<TokenValidation, wascap::Error>,
) -> Result<Option<ActorClaims>, LoadError> {
    match found {
        Err(_) => Err(LoadError::ClaimsExtractFailed),
        Ok(None) => Ok(None),
        Ok(Some(token)) => match token_verdict(validation) {
            Ok(()) => Ok(Some(token.claims)),
            Err(fault) => Err(LoadError::TokenInvalid(fault)),
        },
    }
}

/// Extracts and validates the claims contained within a WebAssembly binary,
/// if such are found.
///
/// Bytes without a token give `Ok(None)`. A token is validated at the time
/// of the call; its claims are returned only where that validation passes.
/// A token that cannot be validated, or whose signature does not belong to
/// its issuer, is refused at any time.
pub fn claims(wasm: &[u8]) -> (r: Result<Option<ActorClaims>, LoadError>)
    ensures
        exists|validation: Result<TokenValidation, wascap::Error>|
            validation_of(embedded_token(wasm@), validation) && r == #[trigger] claims_outcome(
                embedded_token(wasm@),
                validation,
            ),
        embedded_token(wasm@) is Err ==> r == Err::<Option<ActorClaims>, LoadError>(
            LoadError::ClaimsExtractFailed,
        ),
        embedded_token(wasm@) == Ok::<Option<EmbeddedToken>, ()>(None) ==> r == Ok::<
            Option<ActorClaims>,
            LoadError,
        >(None),
        embedded_token(wasm@) matches Ok(Some(token)) ==> match token_signature(token.jwt@) {
            None => r == Err::<Option<ActorClaims>, LoadError>(
                LoadError::TokenInvalid(TokenFault::Malformed),
            ),
            Some(false) => r matches Err(LoadError::TokenInvalid(fault)) && !(fault is Malformed),
            Some(true) => r is Err ==> (r matches Err(LoadError::TokenInvalid(fault)) && (fault
                is Expired || fault is NotYetValid)),
        },
        r matches Ok(Some(claims)) ==> embedded_token(wasm@) matches Ok(Some(token))
            && token.claims == claims && token_signature(token.jwt@) == Some(true),
{
    match extract_claims(wasm) {
        Err(_) => {
            proof {
                let unused: Result<TokenValidation, wascap::Error> = arbitrary();
                assert(claims_outcome(embedded_token(wasm@), unused) is Err);
            }
            Err(LoadError::ClaimsExtractFailed)
        },
        Ok(None) => {
            proof {
                let unused: Result<TokenValidation, wascap::Error> = arbitrary();
                assert(claims_outcome(embedded_token(wasm@), unused) is Ok);
            }
            Ok(None)
        },
        Ok(Some(token)) => {
            let validation = validate_token(token.jwt.as_str());
            let ghost outcome = claims_outcome(embedded_token(wasm@), validation);
            match accept(token, validation) {
                Ok(claims) => {
                    assert(outcome == Ok::<Option<ActorClaims>, LoadError>(Some(claims)));
                    Ok(Some(claims))
                },
                Err(e) => {
                    assert(outcome == Err::<Option<ActorClaims>, LoadError>(e));
                    Err(e)
                },
            }
        },
    }
}

} // verus!
