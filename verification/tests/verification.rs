use openssl::asn1::Asn1Time;
use openssl::hash::MessageDigest;
use openssl::pkey::{PKey, PKeyRef, Private, Public};
use openssl::rsa::{Padding, Rsa};
use openssl::sign::{RsaPssSaltlen, Signer};
use openssl::x509::X509;
use tdx_workload_attestation::error::Error;
use tdx_workload_attestation::step::Step;
use tdx_workload_attestation::verification::signature::{
    setup_failure, signature_verdict, verify_signature_sha256_rsa_pss, SetupStep, NID_SHA256,
    RSA_PKCS1_PSS_PADDING, RSA_PSS_SALTLEN_DIGEST,
};
use tdx_workload_attestation::verification::x509::{
    cert_signature_verdict, certificate_outcome, get_x509_pubkey, issuer_verdict, load_x509_der,
    pubkey_outcome, verify_x509_cert, x509_from_der_bytes, LoadAction, LoadEvent, LoadState,
    X509_V_OK,
};

type Result<T> = std::result::Result<T, Error>;

struct TestKeys {
    privkey: PKey<Private>,
    pubkey: PKey<Public>,
}

fn setup_keys(bits: u32) -> TestKeys {
    let rsa = Rsa::generate(bits).unwrap();
    let pkey = PKey::from_rsa(rsa).unwrap();
    let privkey_der = &pkey.private_key_to_der().unwrap();
    let privkey = &PKey::private_key_from_der(privkey_der).unwrap();
    let pubkey_der = &pkey.public_key_to_der().unwrap();
    let pubkey = &PKey::public_key_from_der(pubkey_der).unwrap();

    TestKeys {
        privkey: privkey.clone(),
        pubkey: pubkey.clone(),
    }
}

fn sign_pss(data: &[u8], key: &PKeyRef<Private>) -> Result<Vec<u8>> {
    // Create the signer with all the parameters
    let mut signer = Signer::new(MessageDigest::sha256(), key)
        .map_err(|e| Error::SignatureError(format!("Failed to create signer: {}", e)))?;

    // Set RSA-PSS parameters with error handling
    signer
        .set_rsa_padding(Padding::PKCS1_PSS)
        .map_err(|e| Error::SignatureError(format!("Failed to set RSA padding: {}", e)))?;
    signer
        .set_rsa_pss_saltlen(RsaPssSaltlen::DIGEST_LENGTH)
        .map_err(|e| Error::SignatureError(format!("Failed to set PSS salt length: {}", e)))?;
    signer
        .set_rsa_mgf1_md(MessageDigest::sha256())
        .map_err(|e| Error::SignatureError(format!("Failed to set MGF1 hash: {}", e)))?;

    signer.update(data).map_err(|e| {
        Error::SignatureError(format!("Failed to feed data into the signer: {}", e))
    })?;

    signer
        .sign_to_vec()
        .map_err(|e| Error::SignatureError(format!("Failed to sign data: {}", e)))
}

#[test]
fn test_verify_signature_sh256_rsa_pss() -> Result<()> {
    let test_keys = setup_keys(4096);
    let data = b"hello, world";

    let signature = sign_pss(data, &test_keys.privkey)?;

    assert!(
        verify_signature_sha256_rsa_pss(data, &signature, &test_keys.pubkey)
            .expect("signature should be valid")
    );
    Ok(())
}

#[test]
fn test_verify_signature_sh256_rsa_pss_fail() -> Result<()> {
    let test_keys = setup_keys(4096);
    let data = b"hello, world";

    let signature = sign_pss(data, &test_keys.privkey)?;

    let data2 = b"hola, mundo";

    assert!(
        !verify_signature_sha256_rsa_pss(data2, &signature, &test_keys.pubkey)
            .expect("signature should be invalid")
    );
    Ok(())
}

#[test]
fn empty_input_is_refused_whatever_the_key() {
    let keys = setup_keys(2048);
    let signature = sign_pss(b"hello, world", &keys.privkey).unwrap();
    match verify_signature_sha256_rsa_pss(b"", &signature, &keys.pubkey) {
        Err(Error::SignatureError(text)) => assert_eq!(text, "Empty data provided for verification"),
        other => panic!("unexpected {:?}", other),
    }
    match verify_signature_sha256_rsa_pss(b"hello, world", b"", &keys.pubkey) {
        Err(Error::SignatureError(text)) => {
            assert_eq!(text, "Empty signature provided for verification")
        }
        other => panic!("unexpected {:?}", other),
    }
    // empty data is found first
    match verify_signature_sha256_rsa_pss(b"", b"", &keys.pubkey) {
        Err(Error::SignatureError(text)) => assert_eq!(text, "Empty data provided for verification"),
        other => panic!("unexpected {:?}", other),
    }
}

#[test]
fn a_signature_matches_its_message_and_key_only() {
    let keys = setup_keys(2048);
    let other = setup_keys(2048);
    let message = b"launch measurement";
    let signature = sign_pss(message, &keys.privkey).unwrap();
    assert!(matches!(verify_signature_sha256_rsa_pss(message, &signature, &keys.pubkey), Ok(true)));
    assert!(matches!(
        verify_signature_sha256_rsa_pss(b"launch measuremenT", &signature, &keys.pubkey),
        Ok(false)
    ));
    assert!(matches!(
        verify_signature_sha256_rsa_pss(message, &signature, &other.pubkey),
        Ok(false)
    ));
    let mut corrupted = signature.clone();
    corrupted[10] ^= 1;
    assert!(matches!(
        verify_signature_sha256_rsa_pss(message, &corrupted, &keys.pubkey),
        Ok(false)
    ));
    // a signature with another padding does not match
    let mut signer = Signer::new(MessageDigest::sha256(), &keys.privkey).unwrap();
    signer.update(message).unwrap();
    let pkcs1 = signer.sign_to_vec().unwrap();
    assert!(matches!(verify_signature_sha256_rsa_pss(message, &pkcs1, &keys.pubkey), Ok(false)));
}

#[test]
fn verdicts_on_signatures() {
    assert!(matches!(signature_verdict(Ok(true)), Ok(true)));
    assert!(matches!(signature_verdict(Ok(false)), Ok(false)));
    match signature_verdict(Err("bad".to_string())) {
        Err(Error::VerificationError(text)) => {
            assert_eq!(text, "Signature verification failed: bad")
        }
        other => panic!("unexpected {:?}", other),
    }
    let steps = [
        (SetupStep::Create, "Failed to create verifier: why"),
        (SetupStep::Padding, "Failed to set RSA padding: why"),
        (SetupStep::SaltLength, "Failed to set PSS salt length: why"),
        (SetupStep::Mgf1, "Failed to set MGF1 hash: why"),
        (SetupStep::Update, "Failed to update verifier with data: why"),
    ];
    for (step, expected) in steps {
        match setup_failure(step, "why") {
            Error::SignatureError(text) => assert_eq!(text, expected),
            other => panic!("unexpected {:?}", other),
        }
    }
}

struct TestCerts {
    root: X509,
    interm: X509,
}

fn make_named_cert(
    subject: &str,
    issuer: &str,
    pubkey: &PKeyRef<Public>,
    sign_key: &PKeyRef<Private>,
) -> X509 {
    let name = |common_name: &str| {
        let mut x509_name = openssl::x509::X509NameBuilder::new().unwrap();
        x509_name.append_entry_by_text("C", "US").unwrap();
        x509_name.append_entry_by_text("ST", "CA").unwrap();
        x509_name
            .append_entry_by_text("O", "Some organization")
            .unwrap();
        x509_name.append_entry_by_text("CN", common_name).unwrap();
        x509_name.build()
    };

    let now = Asn1Time::days_from_now(0).unwrap();
    let end = Asn1Time::days_from_now(5).unwrap();

    let mut cert = openssl::x509::X509::builder().unwrap();
    cert.set_subject_name(&name(subject)).unwrap();
    cert.set_issuer_name(&name(issuer)).unwrap();
    cert.set_not_before(&now).unwrap();
    cert.set_not_after(&end).unwrap();

    cert.set_pubkey(pubkey).unwrap();
    cert.sign(sign_key, MessageDigest::sha256()).unwrap();

    cert.build()
}

fn make_cert(pubkey: &PKeyRef<Public>, sign_key: &PKeyRef<Private>) -> X509 {
    make_named_cert("www.example.com", "www.example.com", pubkey, sign_key)
}

fn setup() -> TestCerts {
    let keys = setup_keys(4096);
    let keys2 = setup_keys(4096);

    TestCerts {
        root: make_cert(&keys.pubkey, &keys.privkey),
        interm: make_cert(&keys2.pubkey, &keys.privkey),
    }
}

#[test]
fn test_x509_from_der_bytes() -> Result<()> {
    let test_certs = setup();
    match test_certs.root.to_der() {
        Ok(der_bytes) => {
            // this will return an error if it fails
            match x509_from_der_bytes(&der_bytes) {
                Ok(_c) => Ok(()),
                // Any error type is unexpected
                Err(e) => Err(e),
            }
        }
        _ => Err(Error::SerializationError(
            "something went wrong serializing the test cert".to_string(),
        )),
    }
}

#[test]
fn test_verify_x509_cert() -> Result<()> {
    let test_certs = setup();
    assert!(
        verify_x509_cert(&test_certs.interm, &test_certs.root)
            .expect("certificate signature should be valid")
    );
    Ok(())
}

#[test]
fn bytes_that_are_no_certificate_are_a_parse_error() {
    assert!(matches!(x509_from_der_bytes(b""), Err(Error::ParseError(_))));
    assert!(matches!(x509_from_der_bytes(b"not a certificate"), Err(Error::ParseError(_))));
    let keys = setup_keys(2048);
    let cert = make_cert(&keys.pubkey, &keys.privkey);
    let der = cert.to_der().unwrap();
    assert!(matches!(x509_from_der_bytes(&der[..der.len() / 2]), Err(Error::ParseError(_))));
    let parsed = x509_from_der_bytes(&der).unwrap();
    assert_eq!(parsed.to_der().unwrap(), der);
}

#[test]
fn the_public_key_of_a_certificate_is_the_one_it_was_made_with() {
    let keys = setup_keys(2048);
    let cert = make_cert(&keys.pubkey, &keys.privkey);
    let key = get_x509_pubkey(&cert).unwrap();
    assert_eq!(key.public_key_to_der().unwrap(), keys.pubkey.public_key_to_der().unwrap());
}

#[test]
fn an_unrelated_certificate_never_passes() {
    let root_keys = setup_keys(2048);
    let other_keys = setup_keys(2048);
    let root = make_named_cert("root", "root", &root_keys.pubkey, &root_keys.privkey);
    // names the root as its issuer, but is signed with another key
    let forged = make_named_cert("leaf", "root", &other_keys.pubkey, &other_keys.privkey);
    match verify_x509_cert(&forged, &root) {
        Err(Error::SignatureError(text)) => assert_eq!(text, "Cert signature verification failed"),
        other => panic!("unexpected {:?}", other),
    }
    // is signed by the root's key, but names another issuer
    let misnamed = make_named_cert("leaf", "someone else", &other_keys.pubkey, &root_keys.privkey);
    match verify_x509_cert(&misnamed, &root) {
        Err(Error::VerificationError(text)) => assert_eq!(text, "Cert issuer verification failed"),
        other => panic!("unexpected {:?}", other),
    }
    // neither
    let unrelated = make_named_cert("other", "other", &other_keys.pubkey, &other_keys.privkey);
    assert!(matches!(verify_x509_cert(&unrelated, &root), Err(Error::VerificationError(_))));
    // issued and signed by the root
    let leaf = make_named_cert("leaf", "root", &other_keys.pubkey, &root_keys.privkey);
    assert!(matches!(verify_x509_cert(&leaf, &root), Ok(true)));
    assert!(matches!(verify_x509_cert(&root, &root), Ok(true)));
    // the order of the two certificates matters
    assert!(verify_x509_cert(&root, &leaf).is_err());
}

#[test]
fn verdicts_on_certificates() {
    assert_eq!(X509_V_OK, 0);
    assert!(issuer_verdict(0).is_ok());
    for code in [1, 29, 30, 31, -1, i32::MAX, i32::MIN] {
        match issuer_verdict(code) {
            Err(Error::VerificationError(text)) => {
                assert_eq!(text, "Cert issuer verification failed")
            }
            other => panic!("unexpected {:?}", other),
        }
    }
    assert!(matches!(cert_signature_verdict(Ok(true)), Ok(true)));
    match cert_signature_verdict(Ok(false)) {
        Err(Error::SignatureError(text)) => assert_eq!(text, "Cert signature verification failed"),
        other => panic!("unexpected {:?}", other),
    }
    match cert_signature_verdict(Err("unsupported algorithm".to_string())) {
        Err(Error::SignatureError(text)) => assert_eq!(text, "unsupported algorithm"),
        other => panic!("unexpected {:?}", other),
    }
}

#[test]
fn a_certificate_file_is_loaded_step_by_step() {
    let keys = setup_keys(2048);
    let der = make_cert(&keys.pubkey, &keys.privkey).to_der().unwrap();
    let path = "certs/root.der";

    let (state, step) = load_x509_der(path, LoadState::Unprobed, LoadEvent::Start);
    assert_eq!(state, LoadState::Unprobed);
    assert!(matches!(step, Step::Perform(LoadAction::Probe { path: p }) if p == path));

    let (state, step) = load_x509_der(path, state, LoadEvent::Probed { is_symlink: false });
    assert_eq!(state, LoadState::Reading);
    assert!(matches!(step, Step::Perform(LoadAction::Read { path: p }) if p == path));

    let (state, step) = load_x509_der(path, state, LoadEvent::Read(der.clone()));
    assert_eq!(state, LoadState::Done);
    match step {
        Step::Finish(Ok(cert)) => assert_eq!(cert.to_der().unwrap(), der),
        other => panic!("unexpected {:?}", other),
    }
}

#[test]
fn a_symlinked_certificate_is_never_read() {
    let path = "certs/link.der";
    let (state, step) =
        load_x509_der(path, LoadState::Unprobed, LoadEvent::Probed { is_symlink: true });
    assert_eq!(state, LoadState::Done);
    match step {
        Step::Finish(Err(Error::NotSupported(text))) => {
            assert_eq!(text, "Path certs/link.der is a symlink")
        }
        other => panic!("unexpected {:?}", other),
    }
}

#[test]
fn failures_of_loading_a_certificate() {
    let path = "certs/root.der";
    let (state, step) =
        load_x509_der(path, LoadState::Reading, LoadEvent::ReadFailed("No such file".to_string()));
    assert_eq!(state, LoadState::Done);
    assert!(matches!(step, Step::Finish(Err(Error::IoError(text))) if text == "No such file"));

    let (state, step) = load_x509_der(path, LoadState::Reading, LoadEvent::Read(vec![1, 2, 3]));
    assert_eq!(state, LoadState::Done);
    assert!(matches!(step, Step::Finish(Err(Error::ParseError(_)))));

    let out_of_order = [
        (LoadState::Unprobed, LoadEvent::Read(vec![])),
        (LoadState::Unprobed, LoadEvent::ReadFailed(String::new())),
        (LoadState::Reading, LoadEvent::Start),
        (LoadState::Reading, LoadEvent::Probed { is_symlink: false }),
        (LoadState::Done, LoadEvent::Start),
        (LoadState::Done, LoadEvent::Read(vec![])),
    ];
    for (state, event) in out_of_order {
        let (next, step) = load_x509_der(path, state, event);
        assert_eq!(next, LoadState::Done);
        match step {
            Step::Finish(Err(Error::IoError(text))) => {
                assert_eq!(text, "Unexpected certificate file event")
            }
            other => panic!("unexpected {:?}", other),
        }
    }
}

#[test]
fn outcomes_of_parsing_and_of_key_extraction() {
    let keys = setup_keys(2048);
    let cert = make_cert(&keys.pubkey, &keys.privkey);
    let der = cert.to_der().unwrap();
    match certificate_outcome(Ok(cert)) {
        Ok(same) => assert_eq!(same.to_der().unwrap(), der),
        other => panic!("unexpected {:?}", other.map(|_| ())),
    }
    match certificate_outcome(Err("bad tag".to_string())) {
        Err(Error::ParseError(text)) => assert_eq!(text, "bad tag"),
        other => panic!("unexpected {:?}", other.map(|_| ())),
    }
    let key_der = keys.pubkey.public_key_to_der().unwrap();
    match pubkey_outcome(Ok(keys.pubkey)) {
        Ok(same) => assert_eq!(same.public_key_to_der().unwrap(), key_der),
        other => panic!("unexpected {:?}", other.map(|_| ())),
    }
    match pubkey_outcome(Err("no key".to_string())) {
        Err(Error::SignatureError(text)) => assert_eq!(text, "no key"),
        other => panic!("unexpected {:?}", other.map(|_| ())),
    }
}

#[test]
fn a_signature_of_another_scheme_does_not_match() {
    assert_eq!(NID_SHA256, openssl::nid::Nid::SHA256.as_raw());
    assert_eq!(RSA_PKCS1_PSS_PADDING, Padding::PKCS1_PSS.as_raw());
    assert_eq!(RSA_PSS_SALTLEN_DIGEST, -1);
    assert_eq!(MessageDigest::sha256().type_().as_raw(), NID_SHA256);
    let keys = setup_keys(2048);
    let message = b"launch measurement";
    let sign = |digest: MessageDigest, saltlen: RsaPssSaltlen, mgf1: MessageDigest| {
        let mut signer = Signer::new(digest, &keys.privkey).unwrap();
        signer.set_rsa_padding(Padding::PKCS1_PSS).unwrap();
        signer.set_rsa_pss_saltlen(saltlen).unwrap();
        signer.set_rsa_mgf1_md(mgf1).unwrap();
        signer.update(message).unwrap();
        signer.sign_to_vec().unwrap()
    };
    let sha256 = MessageDigest::sha256;
    let right = sign(sha256(), RsaPssSaltlen::DIGEST_LENGTH, sha256());
    assert!(matches!(verify_signature_sha256_rsa_pss(message, &right, &keys.pubkey), Ok(true)));
    // a salt of 32 bytes is a salt as long as the digest
    let salt32 = sign(sha256(), RsaPssSaltlen::custom(32), sha256());
    assert!(matches!(verify_signature_sha256_rsa_pss(message, &salt32, &keys.pubkey), Ok(true)));
    let others = [
        sign(sha256(), RsaPssSaltlen::MAXIMUM_LENGTH, sha256()),
        sign(sha256(), RsaPssSaltlen::custom(20), sha256()),
        sign(sha256(), RsaPssSaltlen::DIGEST_LENGTH, MessageDigest::sha1()),
        sign(MessageDigest::sha384(), RsaPssSaltlen::custom(32), sha256()),
    ];
    for signature in others {
        assert!(matches!(
            verify_signature_sha256_rsa_pss(message, &signature, &keys.pubkey),
            Ok(false)
        ));
    }
}
