//! X.509 certificates: parsing, loading and the check of a certificate
//! against its issuer.

use vstd::prelude::*;
use vstd::string::*;
use openssl::error::ErrorStack;
use openssl::pkey::{PKey, Public};
use openssl::x509::X509;
use crate::error::Error;
use crate::step::Step;

verus! {

/// The code with which OpenSSL answers that one certificate issued another.
pub const X509_V_OK: i32 = 0;

// The certificate that `X509::from_der` of OpenSSL gives for `der`, if any.
pub uninterp spec fn x509_of_der(der: Seq<u8>) -> Option<X509>;

// The public key that `X509::public_key` gives for `cert`, if any.
pub uninterp spec fn x509_pubkey(cert: X509) -> Option<PKey<Public>>;

// The number with which `X509::issued`, called on `issuer_cert`, answers for `cert`.
pub uninterp spec fn x509_issued_code(issuer_cert: X509, cert: X509) -> i32;

// What `X509::verify` makes of the signature on `cert` under `key`: whether it validates, if that can be told.
pub uninterp spec fn x509_signature(cert: X509, key: PKey<Public>) -> Option<bool>;

/// Whether OpenSSL takes `der` for a certificate.
pub open spec fn x509_der_parses(der: Seq<u8>) -> bool {
    x509_of_der(der) is Some
}

/// `X509::from_der` of OpenSSL: the certificate that the DER bytes encode, or
/// OpenSSL's errors. Which of the two, and which certificate, depends on the
/// bytes alone and has the name `x509_of_der`; nothing is claimed of the
/// errors.
#[verifier::external_body]
fn x509_from_der(der_bytes: &[u8]) -> (res: Result<X509, ErrorStack>)
    ensures
        match res {
            Ok(cert) => x509_of_der(der_bytes@) == Some(cert),
            Err(_) => x509_of_der(der_bytes@) is None,
        },
{
    X509::from_der(der_bytes)
}

/// `X509::public_key` of OpenSSL: the public key that the certificate holds,
/// or OpenSSL's errors. Which of the two, and which key, depends on the
/// certificate alone and has the name `x509_pubkey`; nothing is claimed of
/// the errors.
#[verifier::external_body]
fn x509_public_key(cert: &X509) -> (res: Result<PKey<Public>, ErrorStack>)
    ensures
        match res {
            Ok(key) => x509_pubkey(*cert) == Some(key),
            Err(_) => x509_pubkey(*cert) is None,
        },
{
    cert.public_key()
}

/// `X509::issued` of OpenSSL, called on `issuer_cert` for `cert`, as the
/// number of its answer. The number depends on the two certificates alone and
/// has the name `x509_issued_code`.
#[verifier::external_body]
fn x509_issued(issuer_cert: &X509, cert: &X509) -> (code: i32)
    ensures
        code == x509_issued_code(*issuer_cert, *cert),
{
    issuer_cert.issued(cert).as_raw()
}

/// `X509::verify` of OpenSSL: whether the signature on `cert` was made with
/// the private part of `key`, or OpenSSL's errors. The answer depends on the
/// certificate and the key alone and has the name `x509_signature`; nothing
/// is claimed of the errors.
#[verifier::external_body]
fn x509_verify(cert: &X509, key: &PKey<Public>) -> (res: Result<bool, ErrorStack>)
    ensures
        match res {
            Ok(valid) => x509_signature(*cert, *key) == Some(valid),
            Err(_) => x509_signature(*cert, *key) is None,
        },
{
    cert.verify(key)
}

/// What the extraction of a public key comes to, for what OpenSSL made of
/// it: the key, or a `SignatureError` with OpenSSL's reason.
pub fn pubkey_outcome(outcome: Result<PKey<Public>, String>) -> (res: Result<PKey<Public>, Error>)
    ensures
        match outcome {
            Ok(key) => res == Ok::<PKey<Public>, Error>(key),
            Err(reason) => res == Err::<PKey<Public>, Error>(Error::SignatureError(reason)),
        },
{
    match outcome {
        Ok(key) => Ok(key),
        Err(reason) => Err(Error::SignatureError(reason)),
    }
}

/// Extracts the public key from a certificate: the key that OpenSSL finds in
/// it, or a `SignatureError` where it finds none.
pub fn get_x509_pubkey(cert: &X509) -> (res: Result<PKey<Public>, Error>)
    ensures
        match x509_pubkey(*cert) {
            Some(key) => res == Ok::<PKey<Public>, Error>(key),
            None => res matches Err(Error::SignatureError(_)),
        },
{
    let outcome = match x509_public_key(cert) {
        Ok(key) => Ok(key),
        Err(e) => Err(e.to_string()),
    };
    pubkey_outcome(outcome)
}

/// What the parsing of a certificate comes to, for what OpenSSL made of it:
/// the certificate, or a `ParseError` with OpenSSL's reason.
pub fn certificate_outcome(outcome: Result<X509, String>) -> (res: Result<X509, Error>)
    ensures
        match outcome {
            Ok(cert) => res == Ok::<X509, Error>(cert),
            Err(reason) => res == Err::<X509, Error>(Error::ParseError(reason)),
        },
{
    match outcome {
        Ok(cert) => Ok(cert),
        Err(reason) => Err(Error::ParseError(reason)),
    }
}

/// Parses a certificate from DER bytes: the certificate that OpenSSL reads
/// from them, or a `ParseError` where it reads none.
pub fn x509_from_der_bytes(der_bytes: &[u8]) -> (res: Result<X509, Error>)
    ensures
        match x509_of_der(der_bytes@) {
            Some(cert) => res == Ok::<X509, Error>(cert),
            None => res matches Err(Error::ParseError(_)),
        },
{
    let outcome = match x509_from_der(der_bytes) {
        Ok(cert) => Ok(cert),
        Err(e) => Err(e.to_string()),
    };
    certificate_outcome(outcome)
}

/// What the check of the issuer's name comes to, for the number that OpenSSL
/// answered with: anything but `X509_V_OK` is a `VerificationError`.
pub fn issuer_verdict(code: i32) -> (res: Result<(), Error>)
    ensures
        code == X509_V_OK ==> res is Ok,
        code != X509_V_OK ==> (res matches Err(Error::VerificationError(text)) && text@
            == "Cert issuer verification failed"@),
{
    if code == X509_V_OK {
        Ok(())
    } else {
        Err(Error::VerificationError(String::from_str("Cert issuer verification failed")))
    }
}

/// What the check of a certificate's signature comes to, for what OpenSSL
/// made of it: only a signature that validates passes. One that does not, and
/// a check that OpenSSL could not carry out (`Err` with its reason), is a
/// `SignatureError`.
pub fn cert_signature_verdict(outcome: Result<bool, String>) -> (res: Result<bool, Error>)
    ensures
        match outcome {
            Ok(true) => res == Ok::<bool, Error>(true),
            Ok(false) => res matches Err(Error::SignatureError(text)) && text@
                == "Cert signature verification failed"@,
            Err(reason) => res == Err::<bool, Error>(Error::SignatureError(reason)),
        },
{
    match outcome {
        Ok(true) => Ok(true),
        Ok(false) => Err(
            Error::SignatureError(String::from_str("Cert signature verification failed")),
        ),
        Err(reason) => Err(Error::SignatureError(reason)),
    }
}

/// What the check of a certificate against its issuer comes to.
pub enum CertCheck {
    /// The issuer is not the one that the certificate names.
    WrongIssuer,
    /// The issuer's certificate gives no public key.
    NoKey,
    /// OpenSSL could not check the signature on the certificate.
    Unverifiable,
    /// The signature on the certificate does not validate under the issuer's
    /// key.
    Forged,
    /// The issuer issued and signed the certificate.
    Valid,
}

/// What OpenSSL makes of `cert` against `issuer_cert`: first whether
/// `issuer_cert` issued `cert`, and only then, with the issuer's public key,
/// whether the signature on `cert` validates.
pub open spec fn cert_check(cert: X509, issuer_cert: X509) -> CertCheck {
    if x509_issued_code(issuer_cert, cert) != X509_V_OK {
        CertCheck::WrongIssuer
    } else {
        match x509_pubkey(issuer_cert) {
            None => CertCheck::NoKey,
            Some(key) => match x509_signature(cert, key) {
                None => CertCheck::Unverifiable,
                Some(false) => CertCheck::Forged,
                Some(true) => CertCheck::Valid,
            },
        }
    }
}

/// Checks a certificate against its issuer: first that `issuer_cert` is the
/// issuer that `cert` names, then that the signature on `cert` validates
/// under the issuer's public key. The second check is not made where the first
/// fails.
///
/// The result is `Ok(true)` or an error, never `Ok(false)`: a wrong issuer is
/// a `VerificationError`; a key that cannot be had and a signature that does
/// not validate are a `SignatureError`.
pub fn verify_x509_cert(cert: &X509, issuer_cert: &X509) -> (res: Result<bool, Error>)
    ensures
        match cert_check(*cert, *issuer_cert) {
            CertCheck::WrongIssuer => res matches Err(Error::VerificationError(text)) && text@
                == "Cert issuer verification failed"@,
            CertCheck::NoKey => res matches Err(Error::SignatureError(_)),
            CertCheck::Unverifiable => res matches Err(Error::SignatureError(_)),
            CertCheck::Forged => res matches Err(Error::SignatureError(text)) && text@
                == "Cert signature verification failed"@,
            CertCheck::Valid => res == Ok::<bool, Error>(true),
        },
{
    match issuer_verdict(x509_issued(issuer_cert, cert)) {
        Ok(()) => {},
        Err(e) => {
            return Err(e);
        },
    }
    let issuer_pkey = match get_x509_pubkey(issuer_cert) {
        Ok(key) => key,
        Err(e) => {
            return Err(e);
        },
    };
    let outcome = match x509_verify(cert, &issuer_pkey) {
        Ok(valid) => Ok(valid),
        Err(e) => Err(e.to_string()),
    };
    cert_signature_verdict(outcome)
}

/// How far the loading of a certificate file has come.
#[derive(Clone, Copy, Debug, PartialEq, Eq, Structural)]
pub enum LoadState {
    /// It is not known yet whether the path is a symbolic link.
    Unprobed,
    /// The path is no symbolic link, and its bytes have been asked for.
    Reading,
    /// The loading has ended.
    Done,
}

/// What the caller reports of the certificate file.
#[derive(Debug)]
pub enum LoadEvent {
    /// The certificate is wanted.
    Start,
    /// The path was examined: whether it is a symbolic link.
    Probed { is_symlink: bool },
    /// The file was read: its bytes.
    Read(Vec<u8>),
    /// The file could not be opened or read, for the reason given.
    ReadFailed(String),
}

/// What the caller is to do with the certificate file.
#[derive(Debug)]
pub enum LoadAction {
    /// Find out whether `path` is a symbolic link, without following it.
    Probe { path: String },
    /// Read all bytes of the file at `path`.
    Read { path: String },
}

/// The step that ends a loading on an event that its state does not expect.
pub open spec fn is_unexpected_load(next: LoadState, step: Step<LoadAction, X509>) -> bool {
    &&& next == LoadState::Done
    &&& step matches Step::Finish(Err(Error::IoError(text)))
    &&& text@ == "Unexpected certificate file event"@
}

/// Whether `next` and `step` are what follows in `state` on `event` when the
/// certificate at `cert_path` is loaded.
pub open spec fn load_step(
    cert_path: Seq<char>,
    state: LoadState,
    event: LoadEvent,
    next: LoadState,
    step: Step<LoadAction, X509>,
) -> bool {
    match (state, event) {
        (LoadState::Unprobed, LoadEvent::Start) => {
            &&& next == LoadState::Unprobed
            &&& step matches Step::Perform(LoadAction::Probe { path })
            &&& path@ == cert_path
        },
        (LoadState::Unprobed, LoadEvent::Probed { is_symlink }) => {
            if is_symlink {
                &&& next == LoadState::Done
                &&& step matches Step::Finish(Err(Error::NotSupported(text)))
                &&& text@ == "Path "@ + cert_path + " is a symlink"@
            } else {
                &&& next == LoadState::Reading
                &&& step matches Step::Perform(LoadAction::Read { path })
                &&& path@ == cert_path
            }
        },
        (LoadState::Reading, LoadEvent::Read(bytes)) => {
            &&& next == LoadState::Done
            &&& step matches Step::Finish(res)
            &&& match x509_of_der(bytes@) {
                Some(cert) => res == Ok::<X509, Error>(cert),
                None => res matches Err(Error::ParseError(_)),
            }
        },
        (LoadState::Reading, LoadEvent::ReadFailed(reason)) => {
            &&& next == LoadState::Done
            &&& step == Step::<LoadAction, X509>::Finish(Err(Error::IoError(reason)))
        },
        _ => is_unexpected_load(next, step),
    }
}

/// One step of loading the DER certificate in the file at `cert_path`: what
/// follows in `state` on `event`.
///
/// A `Start` asks whether the path is a symbolic link. A symbolic link is
/// refused with `NotSupported` and never read; for any other path the file's
/// bytes are asked for. Bytes that OpenSSL reads a certificate from end with
/// that certificate, any others with `ParseError`, and a file that cannot be
/// read with `IoError`.
pub fn load_x509_der(cert_path: &str, state: LoadState, event: LoadEvent) -> (next: (
    LoadState,
    Step<LoadAction, X509>,
))
    ensures
        load_step(cert_path@, state, event, next.0, next.1),
{
    match state {
        LoadState::Unprobed => match event {
            LoadEvent::Start => (
                LoadState::Unprobed,
                Step::Perform(LoadAction::Probe { path: String::from_str(cert_path) }),
            ),
            LoadEvent::Probed { is_symlink } => {
                if is_symlink {
                    let text = String::from_str("Path ").concat(cert_path).concat(" is a symlink");
                    (LoadState::Done, Step::Finish(Err(Error::NotSupported(text))))
                } else {
                    (
                        LoadState::Reading,
                        Step::Perform(LoadAction::Read { path: String::from_str(cert_path) }),
                    )
                }
            },
            _ => unexpected_load(),
        },
        LoadState::Reading => match event {
            LoadEvent::Read(bytes) => (
                LoadState::Done,
                Step::Finish(x509_from_der_bytes(bytes.as_slice())),
            ),
            LoadEvent::ReadFailed(reason) => (
                LoadState::Done,
                Step::Finish(Err(Error::IoError(reason))),
            ),
            _ => unexpected_load(),
        },
        LoadState::Done => unexpected_load(),
    }
}

/// The end of a loading on an event that its state does not expect.
fn unexpected_load() -> (next: (LoadState, Step<LoadAction, X509>))
    ensures
        is_unexpected_load(next.0, next.1),
{
    (
        LoadState::Done,
        Step::Finish(Err(Error::IoError(String::from_str("Unexpected certificate file event")))),
    )
}

/// A certificate file behind a symbolic link is never read and never loaded:
/// the step that learns of the link ends with `NotSupported`.
pub proof fn lemma_symlink_is_refused(
    cert_path: Seq<char>,
    state: LoadState,
    next: LoadState,
    step: Step<LoadAction, X509>,
)
    requires
        load_step(cert_path, state, LoadEvent::Probed { is_symlink: true }, next, step),
    ensures
        step is Finish,
        !(step matches Step::Finish(Ok(_))),
        state == LoadState::Unprobed ==> step matches Step::Finish(Err(Error::NotSupported(_))),
{
}

/// A file is read only after its path was found to be no symbolic link.
pub proof fn lemma_read_follows_probe(
    cert_path: Seq<char>,
    state: LoadState,
    event: LoadEvent,
    next: LoadState,
    step: Step<LoadAction, X509>,
)
    requires
        load_step(cert_path, state, event, next, step),
        step matches Step::Perform(LoadAction::Read { .. }),
    ensures
        state == LoadState::Unprobed,
        event == (LoadEvent::Probed { is_symlink: false }),
        next == LoadState::Reading,
{
}

} // verus!
