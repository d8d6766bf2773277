use tdx_workload_attestation::error::Error;
use tdx_workload_attestation::gcp::{EndorsementAction, EndorsementEvent, EndorsementState, FetchAction, FetchEvent, FetchState};
use tdx_workload_attestation::step::Step;
use tdx_workload_attestation::tdx::linux::device::{DeviceAction, DeviceEvent, DeviceState, PathProbe};
use tdx_workload_attestation::{
    get_attestation_report, get_launch_measurement, get_platform_name, same_text, unsupported,
    verify_launch_endorsement, GCP_TDX, TDX_LINUX,
};

fn present() -> PathProbe {
    PathProbe { exists: Ok(true), is_symlink: false }
}

fn absent() -> PathProbe {
    PathProbe { exists: Ok(false), is_symlink: false }
}

#[test]
fn the_platform_is_tdx_linux_where_the_device_is_available() {
    assert_eq!(get_platform_name("linux", true, &present()).unwrap(), "tdx-linux");
    assert_eq!(get_platform_name("linux", true, &absent()).unwrap(), "linux");
    assert_eq!(get_platform_name("macos", true, &absent()).unwrap(), "macos");
    // without the support the device is not looked at
    assert_eq!(get_platform_name("linux", false, &present()).unwrap(), "linux");
    let link = PathProbe { exists: Ok(true), is_symlink: true };
    assert_eq!(get_platform_name("linux", false, &link).unwrap(), "linux");
    match get_platform_name("linux", true, &link) {
        Err(Error::NotSupported(text)) => assert_eq!(text, "Path /dev/tdx_guest is a symlink"),
        other => panic!("unexpected {:?}", other),
    }
    let unknown = PathProbe { exists: Err("denied".to_string()), is_symlink: false };
    assert!(matches!(
        get_platform_name("linux", true, &unknown),
        Err(Error::NotSupported(text)) if text == "denied"
    ));
}

#[test]
fn an_unsupported_platform_is_named_with_the_operation() {
    assert_eq!(TDX_LINUX, "tdx-linux");
    assert_eq!(GCP_TDX, "gcp-tdx");
    let (state, step) =
        get_attestation_report("linux", present(), DeviceState::Available, DeviceEvent::Start);
    assert_eq!(state, DeviceState::Unavailable);
    match step {
        Step::Finish(Err(Error::NotSupported(text))) => {
            assert_eq!(text, "get_attestation_report is not supported on platform linux")
        }
        other => panic!("unexpected {:?}", other),
    }
    let (_, step) =
        get_launch_measurement("windows", present(), DeviceState::Available, DeviceEvent::Start);
    match step {
        Step::Finish(Err(Error::NotSupported(text))) => {
            assert_eq!(text, "get_launch_measurement is not supported on platform windows")
        }
        other => panic!("unexpected {:?}", other),
    }
    let (state, step) = verify_launch_endorsement(
        "aws-tdx",
        &[0; 48],
        EndorsementState::Retrieving(FetchState::Fetching),
        EndorsementEvent::Retrieval(FetchEvent::Start),
    );
    assert!(matches!(state, EndorsementState::Done));
    match step {
        Step::Finish(Err(Error::NotSupported(text))) => {
            assert_eq!(text, "verify_launch_endorsement is not supported on platform aws-tdx")
        }
        other => panic!("unexpected {:?}", other),
    }
    match unsupported("op", "") {
        Error::NotSupported(text) => assert_eq!(text, "op is not supported on platform "),
        other => panic!("unexpected {:?}", other),
    }
}

#[test]
fn a_supported_platform_is_served_by_its_provider() {
    let (state, step) =
        get_attestation_report("tdx-linux", present(), DeviceState::Available, DeviceEvent::Start);
    assert_eq!(state, DeviceState::Available);
    assert!(matches!(step, Step::Perform(DeviceAction::Open { path }) if path == "/dev/tdx_guest"));
    let (_, step) =
        get_launch_measurement("tdx-linux", absent(), DeviceState::Available, DeviceEvent::Start);
    assert!(matches!(step, Step::Finish(Err(Error::NotSupported(_)))));
    let (_, step) = verify_launch_endorsement(
        "gcp-tdx",
        &[0xab; 48],
        EndorsementState::Retrieving(FetchState::Fetching),
        EndorsementEvent::Retrieval(FetchEvent::Start),
    );
    match step {
        Step::Perform(EndorsementAction::Retrieval(FetchAction::Fetch { arguments, .. })) => {
            assert!(arguments[2].ends_with(&format!("/{}.binarypb", "ab".repeat(48))))
        }
        other => panic!("unexpected {:?}", other),
    }
}

#[test]
fn texts_are_compared_as_a_whole() {
    assert!(same_text("", ""));
    assert!(same_text("tdx-linux", "tdx-linux"));
    assert!(!same_text("tdx-linux", "tdx-linuX"));
    assert!(!same_text("tdx-linux", "tdx-linux "));
    assert!(!same_text("", "a"));
}

#[test]
fn each_error_names_its_kind() {
    let text = || "detail".to_string();
    assert_eq!(Error::IoError(text()).message(), "IO error: detail");
    assert_eq!(Error::NotSupported(text()).message(), "Not supported: detail");
    assert_eq!(Error::ParseError(text()).message(), "Parse error: detail");
    assert_eq!(Error::QuoteError(text()).message(), "Quote error: detail");
    assert_eq!(Error::RtmrExtendError(text()).message(), "RTMR extend error: detail");
    assert_eq!(Error::AddressError(text()).message(), "Address error: detail");
    assert_eq!(Error::SerializationError(text()).message(), "Serialization error: detail");
    assert_eq!(Error::SignatureError(text()).message(), "Signature error: detail");
    assert_eq!(Error::VerificationError(text()).message(), "Verification error: detail");
    assert_eq!(Error::ParseError(String::new()).message(), "Parse error: ");
}
