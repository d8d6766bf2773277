//! Digital signatures: SHA-256 with RSA-PSS padding.

use vstd::prelude::*;
use vstd::string::*;
use openssl::error::ErrorStack;
use openssl::hash::MessageDigest;
use openssl::pkey::{PKey, Public};
use openssl::rsa::Padding;
use openssl::sign::{RsaPssSaltlen, Verifier};
use crate::error::Error;

verus! {

/// The number by which OpenSSL knows the digest SHA-256.
pub const NID_SHA256: i32 = 672;

/// The number by which OpenSSL knows the PSS padding of RSA.
pub const RSA_PKCS1_PSS_PADDING: i32 = 6;

/// The number that stands for a salt as long as the digest.
pub const RSA_PSS_SALTLEN_DIGEST: i32 = -1;

// The verifier that `Verifier::new` gives for `key` and the digest with the number `digest`, if any.
pub uninterp spec fn verifier_created(key: PKey<Public>, digest: int) -> Option<Verifier<'static>>;

// The verifier after `Verifier::set_rsa_padding` with the padding `padding`, if the call succeeds.
pub uninterp spec fn rsa_padding_set(verifier: Verifier<'static>, padding: int) -> Option<Verifier<'static>>;

// The verifier after `Verifier::set_rsa_pss_saltlen` with the length `saltlen`, if the call succeeds.
pub uninterp spec fn pss_saltlen_set(verifier: Verifier<'static>, saltlen: int) -> Option<Verifier<'static>>;

// The verifier after `Verifier::set_rsa_mgf1_md` with the digest `digest`, if the call succeeds.
pub uninterp spec fn mgf1_md_set(verifier: Verifier<'static>, digest: int) -> Option<Verifier<'static>>;

// The verifier after `Verifier::update` with `data`, if the call succeeds.
pub uninterp spec fn data_fed(verifier: Verifier<'static>, data: Seq<u8>) -> Option<Verifier<'static>>;

// What `Verifier::verify` makes of `signature`: whether it matches, if that can be told.
pub uninterp spec fn signature_found(verifier: Verifier<'static>, signature: Seq<u8>) -> Option<bool>;

/// `Verifier::new` of OpenSSL with the digest SHA-256: a verifier for
/// signatures under `public_key`, or OpenSSL's errors. Which of the two, and
/// which verifier, depends on the key alone and has the name
/// `verifier_created`.
#[verifier::external_body]
fn verifier_new_sha256<'a>(public_key: &'a PKey<Public>) -> (res: Result<Verifier<'a>, ErrorStack>)
    ensures
        match res {
            Ok(verifier) => verifier_created(*public_key, NID_SHA256 as int) == Some(verifier),
            Err(_) => verifier_created(*public_key, NID_SHA256 as int) is None,
        },
{
    Verifier::new(MessageDigest::sha256(), public_key)
}

/// `Verifier::set_rsa_padding` of OpenSSL with the padding that has the
/// number `padding`. Whether it succeeds, and the verifier it leaves, depend
/// on the verifier and the padding alone and have the name
/// `rsa_padding_set`.
#[verifier::external_body]
fn verifier_set_rsa_padding(verifier: &mut Verifier<'_>, padding: i32) -> (res: Result<(), ErrorStack>)
    ensures
        match res {
            Ok(()) => rsa_padding_set(*old(verifier), padding as int) == Some(*final(verifier)),
            Err(_) => rsa_padding_set(*old(verifier), padding as int) is None,
        },
{
    verifier.set_rsa_padding(Padding::from_raw(padding))
}

/// `Verifier::set_rsa_pss_saltlen` of OpenSSL with the salt length that has
/// the number `saltlen`. Whether it succeeds, and the verifier it leaves,
/// depend on the verifier and the length alone and have the name
/// `pss_saltlen_set`.
#[verifier::external_body]
fn verifier_set_rsa_pss_saltlen(verifier: &mut Verifier<'_>, saltlen: i32) -> (res: Result<
    (),
    ErrorStack,
>)
    ensures
        match res {
            Ok(()) => pss_saltlen_set(*old(verifier), saltlen as int) == Some(*final(verifier)),
            Err(_) => pss_saltlen_set(*old(verifier), saltlen as int) is None,
        },
{
    verifier.set_rsa_pss_saltlen(RsaPssSaltlen::custom(saltlen))
}

/// `Verifier::set_rsa_mgf1_md` of OpenSSL with SHA-256 as the digest of the
/// mask generation function. Whether it succeeds, and the verifier it
/// leaves, depend on the verifier alone and have the name `mgf1_md_set`.
#[verifier::external_body]
fn verifier_set_mgf1_sha256(verifier: &mut Verifier<'_>) -> (res: Result<(), ErrorStack>)
    ensures
        match res {
            Ok(()) => mgf1_md_set(*old(verifier), NID_SHA256 as int) == Some(*final(verifier)),
            Err(_) => mgf1_md_set(*old(verifier), NID_SHA256 as int) is None,
        },
{
    verifier.set_rsa_mgf1_md(MessageDigest::sha256())
}

/// `Verifier::update` of OpenSSL: feeds `data` into the verifier. Whether it
/// succeeds, and the verifier it leaves, depend on the verifier and the data
/// alone and have the name `data_fed`.
#[verifier::external_body]
fn verifier_update(verifier: &mut Verifier<'_>, data: &[u8]) -> (res: Result<(), ErrorStack>)
    ensures
        match res {
            Ok(()) => data_fed(*old(verifier), data@) == Some(*final(verifier)),
            Err(_) => data_fed(*old(verifier), data@) is None,
        },
{
    verifier.update(data)
}

/// `Verifier::verify` of OpenSSL: whether `signature` is a signature on the
/// data fed into the verifier, or OpenSSL's errors. The answer depends on the
/// verifier and the signature alone and has the name `signature_found`.
#[verifier::external_body]
fn verifier_verify(verifier: &Verifier<'_>, signature: &[u8]) -> (res: Result<bool, ErrorStack>)
    ensures
        match res {
            Ok(found) => signature_found(*verifier, signature@) == Some(found),
            Err(_) => signature_found(*verifier, signature@) is None,
        },
{
    verifier.verify(signature)
}

/// The steps that set a verifier up, in their order.
#[derive(Clone, Copy, Debug, PartialEq, Eq, Structural)]
pub enum SetupStep {
    /// Creating the verifier for the key.
    Create,
    /// Choosing the PSS padding.
    Padding,
    /// Choosing a salt as long as the digest.
    SaltLength,
    /// Choosing SHA-256 for the mask generation function.
    Mgf1,
    /// Feeding the data in.
    Update,
}

/// What the message of a failed setup step starts with.
pub open spec fn setup_failure_prefix(step: SetupStep) -> Seq<char> {
    match step {
        SetupStep::Create => "Failed to create verifier: "@,
        SetupStep::Padding => "Failed to set RSA padding: "@,
        SetupStep::SaltLength => "Failed to set PSS salt length: "@,
        SetupStep::Mgf1 => "Failed to set MGF1 hash: "@,
        SetupStep::Update => "Failed to update verifier with data: "@,
    }
}

/// The error for a setup step that failed for `reason`: a `SignatureError`
/// that names the step and gives the reason.
pub fn setup_failure(step: SetupStep, reason: &str) -> (e: Error)
    ensures
        e matches Error::SignatureError(text) && text@ == setup_failure_prefix(step) + reason@
            && starts_with(text@, setup_failure_prefix(step)),
{
    let prefix = match step {
        SetupStep::Create => "Failed to create verifier: ",
        SetupStep::Padding => "Failed to set RSA padding: ",
        SetupStep::SaltLength => "Failed to set PSS salt length: ",
        SetupStep::Mgf1 => "Failed to set MGF1 hash: ",
        SetupStep::Update => "Failed to update verifier with data: ",
    };
    let text = String::from_str(prefix).concat(reason);
    assert(text@.subrange(0, setup_failure_prefix(step).len() as int) =~= setup_failure_prefix(step));
    Error::SignatureError(text)
}

/// What a verification comes to, for what OpenSSL made of it: whether the
/// signature matches is the answer, be it yes or no; a verification that
/// OpenSSL could not carry out (`Err` with its reason) is a
/// `VerificationError`.
pub fn signature_verdict(outcome: Result<bool, String>) -> (res: Result<bool, Error>)
    ensures
        match outcome {
            Ok(matches) => res == Ok::<bool, Error>(matches),
            Err(reason) => res matches Err(Error::VerificationError(text)) && text@
                == "Signature verification failed: "@ + reason@ && starts_with(
                text@,
                "Signature verification failed: "@,
            ),
        },
{
    match outcome {
        Ok(matches) => Ok(matches),
        Err(reason) => {
            let text = String::from_str("Signature verification failed: ").concat(reason.as_str());
            assert(text@.subrange(0, "Signature verification failed: "@.len() as int)
                =~= "Signature verification failed: "@);
            Err(Error::VerificationError(text))
        },
    }
}

/// What a verification with SHA-256 and RSA-PSS comes to.
pub enum PssOutcome {
    /// The verifier could not be set up: the step that failed.
    SetupFailed(SetupStep),
    /// OpenSSL could not carry the verification out.
    Unverifiable,
    /// Whether the signature matches.
    Answer(bool),
}

/// What OpenSSL makes of `signature` as a signature on `data` under `key`,
/// with the digest SHA-256, the PSS padding, a salt as long as the digest and
/// MGF1 with SHA-256: the verifier is created and set up in this order, fed
/// the data, and asked about the signature.
pub open spec fn pss_sha256_outcome(key: PKey<Public>, data: Seq<u8>, signature: Seq<u8>) -> PssOutcome {
    match verifier_created(key, NID_SHA256 as int) {
        None => PssOutcome::SetupFailed(SetupStep::Create),
        Some(created) => match rsa_padding_set(created, RSA_PKCS1_PSS_PADDING as int) {
            None => PssOutcome::SetupFailed(SetupStep::Padding),
            Some(padded) => match pss_saltlen_set(padded, RSA_PSS_SALTLEN_DIGEST as int) {
                None => PssOutcome::SetupFailed(SetupStep::SaltLength),
                Some(salted) => match mgf1_md_set(salted, NID_SHA256 as int) {
                    None => PssOutcome::SetupFailed(SetupStep::Mgf1),
                    Some(masked) => match data_fed(masked, data) {
                        None => PssOutcome::SetupFailed(SetupStep::Update),
                        Some(fed) => match signature_found(fed, signature) {
                            None => PssOutcome::Unverifiable,
                            Some(found) => PssOutcome::Answer(found),
                        },
                    },
                },
            },
        },
    }
}

/// Whether `text` starts with `prefix`.
pub open spec fn starts_with(text: Seq<char>, prefix: Seq<char>) -> bool {
    text.len() >= prefix.len() && text.subrange(0, prefix.len() as int) == prefix
}

/// Verifies a signature made with SHA-256 and RSA-PSS padding, with a salt as
/// long as the digest and MGF1 with SHA-256.
///
/// Empty data and an empty signature are refused before OpenSSL is asked
/// anything. Else the result is what OpenSSL makes of the signature: whether
/// it matches, be it yes or no; a `SignatureError` that names the step where
/// the verifier could not be set up; a `VerificationError` where the
/// verification could not be carried out.
pub fn verify_signature_sha256_rsa_pss(
    data: &[u8],
    signature: &[u8],
    public_key: &PKey<Public>,
) -> (res: Result<bool, Error>)
    ensures
        data@.len() == 0 ==> (res matches Err(Error::SignatureError(text)) && text@
            == "Empty data provided for verification"@),
        data@.len() > 0 && signature@.len() == 0 ==> (res matches Err(
            Error::SignatureError(text),
        ) && text@ == "Empty signature provided for verification"@),
        data@.len() > 0 && signature@.len() > 0 ==> match pss_sha256_outcome(
            *public_key,
            data@,
            signature@,
        ) {
            PssOutcome::Answer(found) => res == Ok::<bool, Error>(found),
            PssOutcome::Unverifiable => res matches Err(Error::VerificationError(text))
                && starts_with(text@, "Signature verification failed: "@),
            PssOutcome::SetupFailed(step) => res matches Err(Error::SignatureError(text))
                && starts_with(text@, setup_failure_prefix(step)),
        },
        res matches Err(e) ==> e is SignatureError || e is VerificationError,
{
    if data.len() == 0 {
        return Err(Error::SignatureError(String::from_str("Empty data provided for verification")));
    }
    if signature.len() == 0 {
        return Err(
            Error::SignatureError(String::from_str("Empty signature provided for verification")),
        );
    }
    let mut verifier = match verifier_new_sha256(public_key) {
        Ok(verifier) => verifier,
        Err(e) => {
            return Err(setup_failure(SetupStep::Create, e.to_string().as_str()));
        },
    };
    match verifier_set_rsa_padding(&mut verifier, RSA_PKCS1_PSS_PADDING) {
        Ok(()) => {},
        Err(e) => {
            return Err(setup_failure(SetupStep::Padding, e.to_string().as_str()));
        },
    }
    match verifier_set_rsa_pss_saltlen(&mut verifier, RSA_PSS_SALTLEN_DIGEST) {
        Ok(()) => {},
        Err(e) => {
            return Err(setup_failure(SetupStep::SaltLength, e.to_string().as_str()));
        },
    }
    match verifier_set_mgf1_sha256(&mut verifier) {
        Ok(()) => {},
        Err(e) => {
            return Err(setup_failure(SetupStep::Mgf1, e.to_string().as_str()));
        },
    }
    match verifier_update(&mut verifier, data) {
        Ok(()) => {},
        Err(e) => {
            return Err(setup_failure(SetupStep::Update, e.to_string().as_str()));
        },
    }
    let outcome = match verifier_verify(&verifier, signature) {
        Ok(matches) => Ok(matches),
        Err(e) => Err(e.to_string()),
    };
    signature_verdict(outcome)
}

} // verus!
