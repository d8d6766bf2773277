//! The Google Cloud Platform as the host of Intel TDX guests.
//!
//! A guest checks its launch measurement against the launch endorsement that
//! the host has published for it: the endorsement's signing certificate must
//! chain to Google's root certificate, its signature must be one on the golden
//! measurement it carries, and the `MRTD` endorsed there must be the guest's.
//!
//! Fetching the endorsement, decoding it and reading the root certificate are
//! left to the caller; the library says what is to be fetched, decoded and
//! read, and decides on each outcome.

use vstd::prelude::*;
use vstd::string::*;
use openssl::x509::X509;
use crate::error::Error;
use crate::host::TeeHost;
use crate::step::Step;
use openssl::pkey::{PKey, Public};
use crate::verification::signature::{
    pss_sha256_outcome,
    verify_signature_sha256_rsa_pss,
    PssOutcome,
};
use crate::verification::x509::{
    cert_check,
    get_x509_pubkey,
    load_step,
    load_x509_der,
    verify_x509_cert,
    x509_from_der_bytes,
    x509_of_der,
    x509_pubkey,
    CertCheck,
    LoadAction,
    LoadEvent,
    LoadState,
};

verus! {

/// The path of Google's root certificate for launch endorsements.
pub const GCE_TCB_ROOT_CERT_PATH: &'static str = "target/gcp/GCE-cc-tcb-root_1.crt";

/// The path of the command line tool that reads the endorsement store.
pub const GCLOUD_CLI_PATH: &'static str = "/usr/bin/gcloud";

/// A launch endorsement: a serialized golden measurement and a signature on it.
#[derive(Debug)]
pub struct LaunchEndorsement {
    /// The golden measurement, serialized; the signed bytes.
    pub serialized_uefi_golden: Vec<u8>,
    /// The signature on `serialized_uefi_golden`.
    pub signature: Vec<u8>,
}

/// One endorsed TDX measurement.
#[derive(Debug)]
pub struct TdxMeasurement {
    /// The endorsed `MRTD`.
    pub mrtd: Vec<u8>,
}

/// What the verification reads of a golden measurement.
#[derive(Debug)]
pub struct GoldenMeasurement {
    /// The DER certificate of the key that signed the endorsement.
    pub cert: Vec<u8>,
    /// The endorsed TDX measurements, in their order.
    pub tdx_measurements: Vec<TdxMeasurement>,
}

/// The digit of `n` in base 16, in lower case.
pub open spec fn hex_digit(n: int) -> char {
    seq!['0', '1', '2', '3', '4', '5', '6', '7', '8', '9', 'a', 'b', 'c', 'd', 'e', 'f'][n]
}

/// The bytes of `data` as text: two digits of base 16 for each byte, the high
/// one first, in lower case.
pub open spec fn hex_lower(data: Seq<u8>) -> Seq<char>
    decreases data.len(),
{
    if data.len() == 0 {
        Seq::empty()
    } else {
        hex_lower(data.drop_last()) + seq![
            hex_digit(data.last() as int / 16),
            hex_digit(data.last() as int % 16),
        ]
    }
}

/// `hex::encode`: the text of `data` in base 16, two lower-case digits for
/// each byte.
#[verifier::external_body]
fn hex_encode(data: &[u8]) -> (text: String)
    ensures
        text@ == hex_lower(data@),
{
    hex::encode(data)
}

/// Whether two slices hold the same bytes.
pub fn bytes_equal(a: &[u8], b: &[u8]) -> (same: bool)
    ensures
        same == (a@ == b@),
{
    if a.len() != b.len() {
        return false;
    }
    let mut i: usize = 0;
    while i < a.len()
        invariant
            i <= a@.len(),
            a@.len() == b@.len(),
            forall|j: int| 0 <= j < i ==> a@[j] == b@[j],
        decreases a@.len() - i,
    {
        if a[i] != b[i] {
            return false;
        }
        i += 1;
    }
    assert(a@ =~= b@);
    true
}

/// What became of the attempt to read the endorsement store.
#[derive(Debug)]
pub enum FetchOutcome {
    /// The tool is not there or could not be run, for the reason given.
    LaunchFailed(String),
    /// The tool ran: whether it reported success, what it wrote to its
    /// standard output, and what it wrote to its standard error, as text.
    Exited { success: bool, stdout: Vec<u8>, stderr: String },
}

/// How far the retrieval of the launch endorsement has come.
#[derive(Clone, Copy, Debug, PartialEq, Eq, Structural)]
pub enum FetchState {
    /// Nothing has been fetched yet.
    Fetching,
    /// The endorsement's bytes are there and their decoding has been asked for.
    Decoding,
    /// The retrieval has ended.
    Done,
}

/// What the caller reports while the endorsement is retrieved.
#[derive(Debug)]
pub enum FetchEvent {
    /// The endorsement is wanted.
    Start,
    /// The store was asked.
    Fetched(FetchOutcome),
    /// The endorsement's bytes were decoded, or could not be, for the reason
    /// given.
    Decoded(Result<LaunchEndorsement, String>),
}

/// What the caller is to do to retrieve the endorsement.
#[derive(Debug)]
pub enum FetchAction {
    /// Run the tool at `tool` with the arguments `arguments`.
    Fetch { tool: String, arguments: Vec<String> },
    /// Decode `bytes` as a launch endorsement.
    DecodeEndorsement { bytes: Vec<u8> },
}

/// Where the store keeps the endorsement for the measurement `mrtd`.
pub open spec fn storage_url(mrtd: Seq<u8>) -> Seq<char> {
    "gs://gce_tcb_integrity/ovmf_x64_csm/tdx/"@ + hex_lower(mrtd) + ".binarypb"@
}

/// The step that ends a retrieval on an event that its state does not expect.
pub open spec fn is_unexpected_fetch<T>(step: Step<FetchAction, T>) -> bool {
    &&& step matches Step::Finish(Err(Error::VerificationError(text)))
    &&& text@ == "Unexpected launch endorsement event"@
}

/// Whether `next` and `step` are what follows in `state` on `event` when the
/// launch endorsement for the measurement `mrtd` is retrieved.
pub open spec fn fetch_step(
    mrtd: Seq<u8>,
    state: FetchState,
    event: FetchEvent,
    next: FetchState,
    step: Step<FetchAction, LaunchEndorsement>,
) -> bool {
    match (state, event) {
        (FetchState::Fetching, FetchEvent::Start) => {
            &&& next == FetchState::Fetching
            &&& step matches Step::Perform(FetchAction::Fetch { tool, arguments })
            &&& tool@ == GCLOUD_CLI_PATH@
            &&& arguments@.len() == 3
            &&& arguments@[0]@ == "storage"@
            &&& arguments@[1]@ == "cat"@
            &&& arguments@[2]@ == storage_url(mrtd)
        },
        (FetchState::Fetching, FetchEvent::Fetched(FetchOutcome::LaunchFailed(reason))) => {
            &&& next == FetchState::Done
            &&& step == Step::<FetchAction, LaunchEndorsement>::Finish(Err(Error::IoError(reason)))
        },
        (
            FetchState::Fetching,
            FetchEvent::Fetched(FetchOutcome::Exited { success, stdout, stderr }),
        ) => {
            if success {
                &&& next == FetchState::Decoding
                &&& step == Step::<FetchAction, LaunchEndorsement>::Perform(
                    FetchAction::DecodeEndorsement { bytes: stdout },
                )
            } else {
                &&& next == FetchState::Done
                &&& step matches Step::Finish(Err(Error::IoError(text)))
                &&& text@ == "failed to retrieve GCP launch endorsement for TD verification: "@
                    + stderr@
            }
        },
        (FetchState::Decoding, FetchEvent::Decoded(Ok(endorsement))) => {
            &&& next == FetchState::Done
            &&& step == Step::<FetchAction, LaunchEndorsement>::Finish(Ok(endorsement))
        },
        (FetchState::Decoding, FetchEvent::Decoded(Err(reason))) => {
            &&& next == FetchState::Done
            &&& step == Step::<FetchAction, LaunchEndorsement>::Finish(
                Err(Error::ParseError(reason)),
            )
        },
        _ => next == FetchState::Done && is_unexpected_fetch(step),
    }
}

/// A GCP host, as the TDX guest with the launch measurement `mrtd` sees it.
#[derive(Debug)]
pub struct GcpTdxHost {
    mrtd: [u8; 48],
}

impl GcpTdxHost {
    /// The guest's launch measurement.
    pub closed spec fn spec_mrtd(&self) -> [u8; 48] {
        self.mrtd
    }

    /// The host for the guest with the launch measurement `mrtd_bytes`.
    pub fn new(mrtd_bytes: &[u8; 48]) -> (host: GcpTdxHost)
        ensures
            host.spec_mrtd() == *mrtd_bytes,
    {
        GcpTdxHost { mrtd: *mrtd_bytes }
    }

    /// One step of retrieving the guest's launch endorsement: what follows in
    /// `state` on `event`.
    ///
    /// A `Start` asks for the tool of the store to be run with the arguments
    /// `storage`, `cat` and the address that holds the guest's measurement in
    /// base 16. A tool that cannot be run ends with `IoError`, and so does one
    /// that reports failure, with what it wrote to its standard error. What a
    /// successful run wrote is to be decoded; bytes that are no endorsement end
    /// with `ParseError`.
    pub fn retrieve_launch_endorsement(&self, state: FetchState, event: FetchEvent) -> (next: (
        FetchState,
        Step<FetchAction, LaunchEndorsement>,
    ))
        ensures
            fetch_step(self.spec_mrtd()@, state, event, next.0, next.1),
    {
        match state {
            FetchState::Fetching => match event {
                FetchEvent::Start => {
                    let url = String::from_str("gs://gce_tcb_integrity/ovmf_x64_csm/tdx/").concat(
                        hex_encode(self.mrtd.as_slice()).as_str(),
                    ).concat(".binarypb");
                    let mut arguments: Vec<String> = Vec::new();
                    arguments.push(String::from_str("storage"));
                    arguments.push(String::from_str("cat"));
                    arguments.push(url);
                    (
                        FetchState::Fetching,
                        Step::Perform(
                            FetchAction::Fetch {
                                tool: String::from_str(GCLOUD_CLI_PATH),
                                arguments,
                            },
                        ),
                    )
                },
                FetchEvent::Fetched(FetchOutcome::LaunchFailed(reason)) => (
                    FetchState::Done,
                    Step::Finish(Err(Error::IoError(reason))),
                ),
                FetchEvent::Fetched(FetchOutcome::Exited { success, stdout, stderr }) => {
                    if success {
                        (
                            FetchState::Decoding,
                            Step::Perform(FetchAction::DecodeEndorsement { bytes: stdout }),
                        )
                    } else {
                        let text = String::from_str(
                            "failed to retrieve GCP launch endorsement for TD verification: ",
                        ).concat(stderr.as_str());
                        (FetchState::Done, Step::Finish(Err(Error::IoError(text))))
                    }
                },
                FetchEvent::Decoded(_) => (FetchState::Done, unexpected_fetch()),
            },
            FetchState::Decoding => match event {
                FetchEvent::Decoded(Ok(endorsement)) => (
                    FetchState::Done,
                    Step::Finish(Ok(endorsement)),
                ),
                FetchEvent::Decoded(Err(reason)) => (
                    FetchState::Done,
                    Step::Finish(Err(Error::ParseError(reason))),
                ),
                _ => (FetchState::Done, unexpected_fetch()),
            },
            FetchState::Done => (FetchState::Done, unexpected_fetch()),
        }
    }
}

/// The end of a retrieval on an event that its state does not expect.
fn unexpected_fetch<T>() -> (step: Step<FetchAction, T>)
    ensures
        is_unexpected_fetch(step),
{
    Step::Finish(
        Err(Error::VerificationError(String::from_str("Unexpected launch endorsement event"))),
    )
}

/// How far the verification of the launch endorsement has come.
#[derive(Debug)]
pub enum EndorsementState {
    /// The endorsement is being retrieved.
    Retrieving(FetchState),
    /// The endorsement is there, and the decoding of the golden measurement
    /// that it carries has been asked for.
    DecodingGolden { endorsement: LaunchEndorsement },
    /// The golden measurement is there, and the root certificate is being
    /// loaded.
    LoadingRootCert { endorsement: LaunchEndorsement, golden: GoldenMeasurement, load: LoadState },
    /// The verification has ended.
    Done,
}

/// What the caller reports while the endorsement is verified.
#[derive(Debug)]
pub enum EndorsementEvent {
    /// An event of the endorsement's retrieval.
    Retrieval(FetchEvent),
    /// The golden measurement was decoded, or could not be, for the reason
    /// given.
    GoldenDecoded(Result<GoldenMeasurement, String>),
    /// An event of the root certificate's loading.
    RootCert(LoadEvent),
}

/// What the caller is to do to have the endorsement verified.
#[derive(Debug)]
pub enum EndorsementAction {
    /// An action of the endorsement's retrieval.
    Retrieval(FetchAction),
    /// Decode `bytes` as a golden measurement.
    DecodeGolden { bytes: Vec<u8> },
    /// An action of the root certificate's loading.
    RootCert(LoadAction),
}

/// What the check of the signing certificate comes to: a certificate that
/// did not pass is a `SignatureError`; an error on the way to the check stays
/// what it is.
pub fn signing_cert_verdict(check: Result<bool, Error>) -> (res: Result<(), Error>)
    ensures
        match check {
            Ok(true) => res is Ok,
            Ok(false) => res matches Err(Error::SignatureError(text)) && text@
                == "Invalid launch endorsement signing cert"@,
            Err(e) => res == Err::<(), Error>(e),
        },
{
    match check {
        Ok(true) => Ok(()),
        Ok(false) => Err(
            Error::SignatureError(String::from_str("Invalid launch endorsement signing cert")),
        ),
        Err(e) => Err(e),
    }
}

/// What the check of the endorsement's signature comes to: a signature that
/// did not pass is a `SignatureError`; an error on the way to the check stays
/// what it is.
pub fn launch_signature_verdict(check: Result<bool, Error>) -> (res: Result<(), Error>)
    ensures
        match check {
            Ok(true) => res is Ok,
            Ok(false) => res matches Err(Error::SignatureError(text)) && text@
                == "Invalid launch endorsement signature"@,
            Err(e) => res == Err::<(), Error>(e),
        },
{
    match check {
        Ok(true) => Ok(()),
        Ok(false) => Err(
            Error::SignatureError(String::from_str("Invalid launch endorsement signature")),
        ),
        Err(e) => Err(e),
    }
}

/// Whether `signature` passes as a signature on `data` under `key`: neither
/// is empty, and OpenSSL finds that the signature matches, with SHA-256, PSS
/// padding, a salt as long as the digest and MGF1 with SHA-256.
pub open spec fn signature_passes(key: PKey<Public>, data: Seq<u8>, signature: Seq<u8>) -> bool {
    &&& data.len() > 0
    &&& signature.len() > 0
    &&& pss_sha256_outcome(key, data, signature) matches PssOutcome::Answer(found)
    &&& found
}

/// What follows from a step of loading the root certificate for the check of
/// the signing certificate, whose DER bytes are `signing_cert`: the loading's
/// actions and errors are handed on; once the root certificate is there, bytes
/// that are no certificate end with `ParseError`, and a certificate ends with
/// the answer whether the root certificate issued and signed it.
pub open spec fn signing_cert_follows(
    signing_cert: Seq<u8>,
    load: Step<LoadAction, X509>,
    step: Step<LoadAction, bool>,
) -> bool {
    match load {
        Step::Perform(action) => step == Step::<LoadAction, bool>::Perform(action),
        Step::Finish(Err(e)) => step == Step::<LoadAction, bool>::Finish(Err(e)),
        Step::Finish(Ok(root)) => match x509_of_der(signing_cert) {
            None => step matches Step::Finish(Err(Error::ParseError(_))),
            Some(cert) => step == Step::<LoadAction, bool>::Finish(
                Ok(cert_check(cert, root) is Valid),
            ),
        },
    }
}

/// Whether `next` and `step` are what follows in `state` on `event` when the
/// signing certificate with the DER bytes `signing_cert` is checked against
/// the root certificate: what follows from the step of loading the root
/// certificate.
pub open spec fn signing_cert_step(
    signing_cert: Seq<u8>,
    state: LoadState,
    event: LoadEvent,
    next: LoadState,
    step: Step<LoadAction, bool>,
) -> bool {
    exists|loading: Step<LoadAction, X509>|
        #[trigger] load_step(GCE_TCB_ROOT_CERT_PATH@, state, event, next, loading)
            && signing_cert_follows(signing_cert, loading, step)
}

/// What the check of the endorsement's signature comes to, for the DER bytes
/// of the signing certificate: bytes that are no certificate are a
/// `ParseError`, a certificate without a public key is a `SignatureError`, and
/// else the answer is whether the signature passes under the certificate's
/// key.
pub open spec fn launch_signature_check(
    endorsement: LaunchEndorsement,
    signing_cert: Seq<u8>,
    res: Result<bool, Error>,
) -> bool {
    match x509_of_der(signing_cert) {
        None => res matches Err(Error::ParseError(_)),
        Some(cert) => match x509_pubkey(cert) {
            None => res matches Err(Error::SignatureError(_)),
            Some(key) => res == Ok::<bool, Error>(
                signature_passes(key, endorsement.serialized_uefi_golden@, endorsement.signature@),
            ),
        },
    }
}

/// The end of a verification whose signing certificate has passed, for the
/// guest's measurement `mrtd`: the signature is checked under the signing
/// certificate's key; one that does not pass is a `SignatureError`. Only then
/// the measurements are compared: a golden measurement that endorses none is a
/// `ParseError`, and else the answer is whether the first `MRTD` endorsed is
/// `mrtd`, byte for byte.
pub open spec fn after_signing_cert(
    mrtd: Seq<u8>,
    endorsement: LaunchEndorsement,
    golden: GoldenMeasurement,
    res: Result<bool, Error>,
) -> bool {
    match x509_of_der(golden.cert@) {
        None => res matches Err(Error::ParseError(_)),
        Some(cert) => match x509_pubkey(cert) {
            None => res matches Err(Error::SignatureError(_)),
            Some(key) => if !signature_passes(
                key,
                endorsement.serialized_uefi_golden@,
                endorsement.signature@,
            ) {
                res matches Err(Error::SignatureError(text)) && text@
                    == "Invalid launch endorsement signature"@
            } else if golden.tdx_measurements@.len() == 0 {
                res matches Err(Error::ParseError(text)) && text@
                    == "Golden measurement holds no TDX measurement"@
            } else {
                res == Ok::<bool, Error>(golden.tdx_measurements@[0].mrtd@ == mrtd)
            },
        },
    }
}

/// The end of a verification once the root certificate `root` is loaded, for
/// the guest's measurement `mrtd`: a signing certificate that cannot be parsed
/// is a `ParseError`; one that the root did not issue and sign is a
/// `SignatureError`, and the signature is not looked at; else the end is that
/// of `after_signing_cert`.
pub open spec fn concludes(
    mrtd: Seq<u8>,
    endorsement: LaunchEndorsement,
    golden: GoldenMeasurement,
    root: X509,
    res: Result<bool, Error>,
) -> bool {
    match x509_of_der(golden.cert@) {
        None => res matches Err(Error::ParseError(_)),
        Some(cert) => if cert_check(cert, root) is Valid {
            after_signing_cert(mrtd, endorsement, golden, res)
        } else {
            res matches Err(Error::SignatureError(text)) && text@
                == "Invalid launch endorsement signing cert"@
        },
    }
}

/// The step that ends a verification on an event that its state does not
/// expect.
pub open spec fn is_unexpected_endorsement(
    next: EndorsementState,
    step: Step<EndorsementAction, bool>,
) -> bool {
    &&& next is Done
    &&& step matches Step::Finish(Err(Error::VerificationError(text)))
    &&& text@ == "Unexpected launch endorsement event"@
}

/// Whether `next` and `step` are what follows in `state` on `event` when the
/// launch endorsement is verified for the guest's measurement `mrtd`.
pub open spec fn endorsement_step(
    mrtd: Seq<u8>,
    state: EndorsementState,
    event: EndorsementEvent,
    next: EndorsementState,
    step: Step<EndorsementAction, bool>,
) -> bool {
    match (state, event) {
        (EndorsementState::Retrieving(fetching), EndorsementEvent::Retrieval(fetched)) => {
            exists|fetch_next: FetchState, fetch: Step<FetchAction, LaunchEndorsement>|
                #[trigger] fetch_step(mrtd, fetching, fetched, fetch_next, fetch) && match fetch {
                    Step::Perform(action) => {
                        &&& next == EndorsementState::Retrieving(fetch_next)
                        &&& step == Step::<EndorsementAction, bool>::Perform(
                            EndorsementAction::Retrieval(action),
                        )
                    },
                    Step::Finish(Err(e)) => {
                        &&& next is Done
                        &&& step == Step::<EndorsementAction, bool>::Finish(Err(e))
                    },
                    Step::Finish(Ok(endorsement)) => {
                        &&& next == (EndorsementState::DecodingGolden { endorsement })
                        &&& step matches Step::Perform(EndorsementAction::DecodeGolden { bytes })
                        &&& bytes@ == endorsement.serialized_uefi_golden@
                    },
                }
        },
        (
            EndorsementState::DecodingGolden { endorsement },
            EndorsementEvent::GoldenDecoded(Ok(golden)),
        ) => {
            &&& next == (EndorsementState::LoadingRootCert {
                endorsement,
                golden,
                load: LoadState::Unprobed,
            })
            &&& step matches Step::Perform(EndorsementAction::RootCert(LoadAction::Probe { path }))
            &&& path@ == GCE_TCB_ROOT_CERT_PATH@
        },
        (
            EndorsementState::DecodingGolden { endorsement },
            EndorsementEvent::GoldenDecoded(Err(reason)),
        ) => {
            &&& next is Done
            &&& step == Step::<EndorsementAction, bool>::Finish(
                Err(Error::SerializationError(reason)),
            )
        },
        (
            EndorsementState::LoadingRootCert { endorsement, golden, load },
            EndorsementEvent::RootCert(loaded),
        ) => {
            exists|load_next: LoadState, loading: Step<LoadAction, X509>|
                #[trigger] load_step(GCE_TCB_ROOT_CERT_PATH@, load, loaded, load_next, loading)
                    && match loading {
                    Step::Perform(action) => {
                        &&& next == (EndorsementState::LoadingRootCert {
                            endorsement,
                            golden,
                            load: load_next,
                        })
                        &&& step == Step::<EndorsementAction, bool>::Perform(
                            EndorsementAction::RootCert(action),
                        )
                    },
                    Step::Finish(Err(e)) => {
                        &&& next is Done
                        &&& step == Step::<EndorsementAction, bool>::Finish(Err(e))
                    },
                    Step::Finish(Ok(root)) => {
                        &&& next is Done
                        &&& step matches Step::Finish(res)
                        &&& concludes(mrtd, endorsement, golden, root, res)
                    },
                }
        },
        _ => is_unexpected_endorsement(next, step),
    }
}

impl GcpTdxHost {
    /// One step of checking the signing certificate that `golden` carries
    /// against Google's root certificate: what follows in `state` on `event`
    /// of loading the root certificate.
    ///
    /// Once the root certificate is loaded, the result is whether it issued
    /// and signed the signing certificate; a chain check that fails or cannot
    /// be made is a `false`. A root certificate that cannot be loaded and a
    /// signing certificate that cannot be parsed are errors.
    pub fn verify_launch_endorsement_signing_cert(
        golden: &GoldenMeasurement,
        state: LoadState,
        event: LoadEvent,
    ) -> (next: (LoadState, Step<LoadAction, bool>))
        ensures
            signing_cert_step(golden.cert@, state, event, next.0, next.1),
    {
        let ghost asked = event;
        let (load_next, loading) = load_x509_der(GCE_TCB_ROOT_CERT_PATH, state, event);
        let ghost witness = loading;
        let step = match loading {
            Step::Perform(action) => Step::Perform(action),
            Step::Finish(Err(e)) => Step::Finish(Err(e)),
            Step::Finish(Ok(gcp_root_cert)) => {
                match x509_from_der_bytes(golden.cert.as_slice()) {
                    Err(e) => Step::Finish(Err(e)),
                    Ok(signing_cert) => {
                        let valid = match verify_x509_cert(&signing_cert, &gcp_root_cert) {
                            Ok(valid) => valid,
                            Err(_) => false,
                        };
                        Step::Finish(Ok(valid))
                    },
                }
            },
        };
        assert(load_step(GCE_TCB_ROOT_CERT_PATH@, state, asked, load_next, witness));
        assert(signing_cert_follows(golden.cert@, witness, step));
        assert(signing_cert_step(golden.cert@, state, asked, load_next, step));
        (load_next, step)
    }

    /// Checks the endorsement's signature on the golden measurement that it
    /// carries, under the public key of the signing certificate.
    ///
    /// The result is whether the signature passes for those bytes; a
    /// verification that cannot be carried out is a `false`, and so is one of
    /// no bytes or of no signature. Bytes that are no certificate are a
    /// `ParseError`; a certificate without a usable public key is a
    /// `SignatureError`.
    pub fn verify_launch_endorsement_sig(endorsement: &LaunchEndorsement, signing_cert: Vec<u8>) -> (res:
        Result<bool, Error>)
        ensures
            launch_signature_check(*endorsement, signing_cert@, res),
    {
        let cert_x509 = match x509_from_der_bytes(signing_cert.as_slice()) {
            Ok(cert) => cert,
            Err(e) => {
                return Err(e);
            },
        };
        let signing_key = match get_x509_pubkey(&cert_x509) {
            Ok(key) => key,
            Err(e) => {
                return Err(e);
            },
        };
        match verify_signature_sha256_rsa_pss(
            endorsement.serialized_uefi_golden.as_slice(),
            endorsement.signature.as_slice(),
            &signing_key,
        ) {
            Ok(valid) => Ok(valid),
            Err(_) => Ok(false),
        }
    }

    /// Compares the first `MRTD` that `golden` endorses with the guest's,
    /// byte for byte. A golden measurement that endorses none is a
    /// `ParseError`.
    pub fn compare_measurement(&self, golden: &GoldenMeasurement) -> (res: Result<bool, Error>)
        ensures
            golden.tdx_measurements@.len() == 0 ==> (res matches Err(Error::ParseError(text))
                && text@ == "Golden measurement holds no TDX measurement"@),
            golden.tdx_measurements@.len() > 0 ==> res == Ok::<bool, Error>(
                golden.tdx_measurements@[0].mrtd@ == self.spec_mrtd()@,
            ),
    {
        if golden.tdx_measurements.len() == 0 {
            return Err(
                Error::ParseError(String::from_str("Golden measurement holds no TDX measurement")),
            );
        }
        Ok(bytes_equal(golden.tdx_measurements[0].mrtd.as_slice(), self.mrtd.as_slice()))
    }

    /// The end of the verification, once the signing certificate has been
    /// checked: the signature is checked only where the certificate passed,
    /// and the measurements are compared only where both passed.
    fn conclude(
        &self,
        endorsement: &LaunchEndorsement,
        golden: &GoldenMeasurement,
        cert_check: Result<bool, Error>,
    ) -> (res: Result<bool, Error>)
        ensures
            match cert_check {
                Err(e) => res == Err::<bool, Error>(e),
                Ok(false) => res matches Err(Error::SignatureError(text)) && text@
                    == "Invalid launch endorsement signing cert"@,
                Ok(true) => after_signing_cert(self.spec_mrtd()@, *endorsement, *golden, res),
            },
    {
        match signing_cert_verdict(cert_check) {
            Ok(()) => {},
            Err(e) => {
                return Err(e);
            },
        }
        let sig_check = Self::verify_launch_endorsement_sig(endorsement, golden.cert.clone());
        match launch_signature_verdict(sig_check) {
            Ok(()) => {},
            Err(e) => {
                return Err(e);
            },
        }
        self.compare_measurement(golden)
    }
}

impl TeeHost for GcpTdxHost {
    type State = EndorsementState;

    type Event = EndorsementEvent;

    type Action = EndorsementAction;

    /// One step of verifying the guest's launch measurement against the
    /// host's launch endorsement: what follows in `state` on `event`. A
    /// verification starts in `Retrieving(Fetching)` with `Retrieval(Start)`.
    ///
    /// The endorsement is retrieved; the golden measurement that it carries
    /// is decoded from the very bytes that it signs; the root certificate is
    /// loaded; the signing certificate is checked against it; the signature is
    /// checked under the signing certificate's key; the first endorsed `MRTD`
    /// is compared with the guest's. Each failure ends the verification with
    /// an error. Only the comparison can end it with `Ok(false)`.
    fn verify_launch_endorsement(&self, state: EndorsementState, event: EndorsementEvent) -> (next: (
        EndorsementState,
        Step<EndorsementAction, bool>,
    ))
        ensures
            endorsement_step(self.spec_mrtd()@, state, event, next.0, next.1),
    {
        match state {
            EndorsementState::Retrieving(fetching) => match event {
                EndorsementEvent::Retrieval(fetched) => {
                    let (fetch_next, fetch) = self.retrieve_launch_endorsement(fetching, fetched);
                    let ghost witness = fetch;
                    let next = match fetch {
                        Step::Perform(action) => (
                            EndorsementState::Retrieving(fetch_next),
                            Step::Perform(EndorsementAction::Retrieval(action)),
                        ),
                        Step::Finish(Err(e)) => (EndorsementState::Done, Step::Finish(Err(e))),
                        Step::Finish(Ok(endorsement)) => {
                            let bytes = endorsement.serialized_uefi_golden.clone();
                            (
                                EndorsementState::DecodingGolden { endorsement },
                                Step::Perform(EndorsementAction::DecodeGolden { bytes }),
                            )
                        },
                    };
                    assert(fetch_step(self.spec_mrtd()@, fetching, fetched, fetch_next, witness));
                    next
                },
                _ => unexpected_endorsement(),
            },
            EndorsementState::DecodingGolden { endorsement } => match event {
                EndorsementEvent::GoldenDecoded(Ok(golden)) => {
                    let (load, loading) = Self::verify_launch_endorsement_signing_cert(
                        &golden,
                        LoadState::Unprobed,
                        LoadEvent::Start,
                    );
                    match loading {
                        Step::Perform(action) => (
                            EndorsementState::LoadingRootCert { endorsement, golden, load },
                            Step::Perform(EndorsementAction::RootCert(action)),
                        ),
                        Step::Finish(res) => (EndorsementState::Done, Step::Finish(res)),
                    }
                },
                EndorsementEvent::GoldenDecoded(Err(reason)) => (
                    EndorsementState::Done,
                    Step::Finish(Err(Error::SerializationError(reason))),
                ),
                _ => unexpected_endorsement(),
            },
            EndorsementState::LoadingRootCert { endorsement, golden, load } => match event {
                EndorsementEvent::RootCert(loaded) => {
                    let (load_next, checking) = Self::verify_launch_endorsement_signing_cert(
                        &golden,
                        load,
                        loaded,
                    );
                    match checking {
                        Step::Perform(action) => (
                            EndorsementState::LoadingRootCert {
                                endorsement,
                                golden,
                                load: load_next,
                            },
                            Step::Perform(EndorsementAction::RootCert(action)),
                        ),
                        Step::Finish(cert_check) => {
                            let res = self.conclude(&endorsement, &golden, cert_check);
                            (EndorsementState::Done, Step::Finish(res))
                        },
                    }
                },
                _ => unexpected_endorsement(),
            },
            EndorsementState::Done => unexpected_endorsement(),
        }
    }
}

/// The end of a verification on an event that its state does not expect.
fn unexpected_endorsement() -> (next: (EndorsementState, Step<EndorsementAction, bool>))
    ensures
        is_unexpected_endorsement(next.0, next.1),
{
    (
        EndorsementState::Done,
        Step::Finish(
            Err(Error::VerificationError(String::from_str("Unexpected launch endorsement event"))),
        ),
    )
}

/// A verification says yes or no only as the last thing: after the root
/// certificate was loaded, the signing certificate passed against it and the
/// signature passed under the signing certificate's key. Its answer is then
/// whether the first `MRTD` that the golden measurement endorses is the
/// guest's. Every earlier step asks for an action or ends with an error.
pub proof fn lemma_answer_is_the_comparison(
    mrtd: Seq<u8>,
    state: EndorsementState,
    event: EndorsementEvent,
    next: EndorsementState,
    step: Step<EndorsementAction, bool>,
)
    requires
        endorsement_step(mrtd, state, event, next, step),
        step matches Step::Finish(Ok(_)),
    ensures
        state matches EndorsementState::LoadingRootCert { endorsement, golden, .. } && {
            &&& x509_of_der(golden.cert@) matches Some(cert)
            &&& exists|root: X509| #[trigger] cert_check(cert, root) is Valid
            &&& x509_pubkey(cert) matches Some(key)
            &&& signature_passes(key, endorsement.serialized_uefi_golden@, endorsement.signature@)
            &&& golden.tdx_measurements@.len() > 0
            &&& step matches Step::Finish(Ok(same))
            &&& same == (golden.tdx_measurements@[0].mrtd@ == mrtd)
        },
{
}

/// The last step of a verification, on the bytes of the root certificate
/// file: bytes that are no certificate end it with `ParseError`, and a root
/// certificate ends it as `concludes` says.
pub proof fn lemma_verification_ends(
    mrtd: Seq<u8>,
    endorsement: LaunchEndorsement,
    golden: GoldenMeasurement,
    root_bytes: Vec<u8>,
    next: EndorsementState,
    step: Step<EndorsementAction, bool>,
)
    requires
        endorsement_step(
            mrtd,
            EndorsementState::LoadingRootCert { endorsement, golden, load: LoadState::Reading },
            EndorsementEvent::RootCert(LoadEvent::Read(root_bytes)),
            next,
            step,
        ),
    ensures
        next is Done,
        step matches Step::Finish(res) && match x509_of_der(root_bytes@) {
            None => res matches Err(Error::ParseError(_)),
            Some(root) => concludes(mrtd, endorsement, golden, root, res),
        },
{
}

/// What the last step of a verification gives where the root certificate and
/// the signing certificate parse: the comparison of the measurements where the
/// signing certificate passes against the root, the signature passes under its
/// key and a measurement is endorsed; a `SignatureError` for a signing
/// certificate that does not pass, whatever the signature and the
/// measurements; a `SignatureError` for a signature that does not pass,
/// whatever the measurements.
pub proof fn lemma_verdicts(
    mrtd: Seq<u8>,
    endorsement: LaunchEndorsement,
    golden: GoldenMeasurement,
    root_bytes: Vec<u8>,
    next: EndorsementState,
    step: Step<EndorsementAction, bool>,
    root: X509,
    cert: X509,
    key: PKey<Public>,
)
    requires
        endorsement_step(
            mrtd,
            EndorsementState::LoadingRootCert { endorsement, golden, load: LoadState::Reading },
            EndorsementEvent::RootCert(LoadEvent::Read(root_bytes)),
            next,
            step,
        ),
        x509_of_der(root_bytes@) == Some(root),
        x509_of_der(golden.cert@) == Some(cert),
        x509_pubkey(cert) == Some(key),
    ensures
        !(cert_check(cert, root) is Valid) ==> (step matches Step::Finish(
            Err(Error::SignatureError(text)),
        ) && text@ == "Invalid launch endorsement signing cert"@),
        cert_check(cert, root) is Valid && !signature_passes(
            key,
            endorsement.serialized_uefi_golden@,
            endorsement.signature@,
        ) ==> (step matches Step::Finish(Err(Error::SignatureError(text))) && text@
            == "Invalid launch endorsement signature"@),
        cert_check(cert, root) is Valid && signature_passes(
            key,
            endorsement.serialized_uefi_golden@,
            endorsement.signature@,
        ) && golden.tdx_measurements@.len() > 0 ==> step == Step::<EndorsementAction, bool>::Finish(
            Ok(golden.tdx_measurements@[0].mrtd@ == mrtd),
        ),
{
    lemma_verification_ends(mrtd, endorsement, golden, root_bytes, next, step);
}

/// The golden measurement is decoded from the bytes that the endorsement
/// signs, and from no others.
pub proof fn lemma_golden_is_decoded_from_signed_bytes(
    mrtd: Seq<u8>,
    state: EndorsementState,
    event: EndorsementEvent,
    next: EndorsementState,
    step: Step<EndorsementAction, bool>,
)
    requires
        endorsement_step(mrtd, state, event, next, step),
        step matches Step::Perform(EndorsementAction::DecodeGolden { .. }),
    ensures
        next matches EndorsementState::DecodingGolden { endorsement } && (
        step matches Step::Perform(EndorsementAction::DecodeGolden { bytes }) && bytes@
            == endorsement.serialized_uefi_golden@),
{
}

} // verus!
