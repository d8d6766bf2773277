use tdx_workload_attestation::error::Error;
use tdx_workload_attestation::provider::AttestationProvider;
use tdx_workload_attestation::step::Step;
use tdx_workload_attestation::tdx::linux::device::{
    DeviceAction, DeviceEvent, DeviceState, PathProbe, TdxDeviceKvmV15, TDX15_DEV_PATH,
    TDX_CMD_GET_REPORT0_V1_5,
};
use tdx_workload_attestation::tdx::linux::{get_tdreport_v15_kvm, is_v15_kvm_device};
use tdx_workload_attestation::tdx::report::TdReportV15;
use tdx_workload_attestation::tdx::LinuxTdxProvider;

type Result<T> = std::result::Result<T, Error>;

fn handle_expected_tdx_error(e: Error) -> Result<()> {
    match e {
        // These errors are expected on non-TDX hosts
        Error::NotSupported(_) | Error::QuoteError(_) => {
            println!("Test skipped on non-TDX host: {}", e.message());
            Ok(()) // Return OK to pass the test
        }
        // Any other error should cause the test to fail!
        _ => Err(e),
    }
}

/// What the file system says of the device path on a host without TDX.
fn no_device() -> PathProbe {
    PathProbe { exists: Ok(false), is_symlink: false }
}

/// What the file system says of the device path on a TDX guest.
fn device_present() -> PathProbe {
    PathProbe { exists: Ok(true), is_symlink: false }
}

/// A device that fills the report behind the report data with `fill`.
fn filled(buffer: [u8; 1088], fill: u8) -> [u8; 1088] {
    let mut out = buffer;
    for byte in out[64..].iter_mut() {
        *byte = fill;
    }
    out
}

#[test]
fn test_is_available() -> Result<()> {
    match TdxDeviceKvmV15::is_available(&no_device()) {
        Ok(true) => panic!("a path that does not exist is not available"),
        Ok(false) => Ok(()),
        Err(e) => match e {
            Error::NotSupported(_) => {
                println!("{}", e.message());
                Ok(())
            }
            // Any other error type is unexpected
            _ => Err(e),
        },
    }
}

#[test]
fn test_get_tdreport_raw() -> Result<()> {
    let device = TdxDeviceKvmV15::new(&no_device());
    let request: [u8; 1088] = [0; 1088];

    let (_, step) = device.get_tdreport_raw(&request, DeviceState::Available, DeviceEvent::Start);
    let result = match step {
        Step::Finish(result) => result,
        Step::Perform(action) => panic!("a missing device is not called: {:?}", action),
    };
    match result {
        Ok(report) => {
            // Assert that the device didn't just return an empty report
            assert!(report != [0; 1088]);
            Ok(())
        }
        Err(e) => match e {
            Error::NotSupported(_) => {
                println!("{}", e.message());
                Ok(())
            }
            Error::QuoteError(_) => {
                println!("{}", e.message());
                Ok(())
            }
            // Any other error type is unexpected
            _ => Err(e),
        },
    }
}

#[test]
fn test_get_tdreport_v15_kvm() -> Result<()> {
    let report_data: [u8; 64] = [0; 64];

    let (_, step) =
        get_tdreport_v15_kvm(&report_data, &no_device(), DeviceState::Available, DeviceEvent::Start);
    match step {
        Step::Finish(Ok(report)) => {
            println!("Got TDREPORT: {:?}", report);
            Ok(())
        }
        Step::Finish(Err(e)) => handle_expected_tdx_error(e),
        Step::Perform(action) => panic!("a missing device is not called: {:?}", action),
    }
}

#[test]
fn test_get_attestation_report() -> Result<()> {
    let provider = LinuxTdxProvider::new(no_device());
    let (_, step) = provider.get_attestation_report(DeviceState::Available, DeviceEvent::Start);
    match step {
        Step::Finish(Ok(report)) => {
            // Verify it returned a non-empty string
            assert!(!report.is_empty());

            // Verify report is valid JSON
            let _: serde_json::Value = serde_json::from_str(&report)
                .map_err(|e| Error::SerializationError(e.to_string()))?;
            Ok(())
        }
        Step::Finish(Err(e)) => handle_expected_tdx_error(e),
        Step::Perform(action) => panic!("a missing device is not called: {:?}", action),
    }
}

#[test]
fn test_get_launch_measurement() -> Result<()> {
    let provider = LinuxTdxProvider::new(no_device());
    let (_, step) = provider.get_launch_measurement(DeviceState::Available, DeviceEvent::Start);
    match step {
        Step::Finish(Ok(mrtd)) => {
            // Verify it returned a non-empty buffer
            assert!(!mrtd.is_empty());
            Ok(())
        }
        Step::Finish(Err(e)) => handle_expected_tdx_error(e),
        Step::Perform(action) => panic!("a missing device is not called: {:?}", action),
    }
}

#[test]
fn availability_follows_the_probe() {
    assert!(matches!(TdxDeviceKvmV15::is_available(&device_present()), Ok(true)));
    assert!(matches!(TdxDeviceKvmV15::is_available(&no_device()), Ok(false)));
    assert!(matches!(is_v15_kvm_device(&device_present()), Ok(true)));
    assert!(matches!(is_v15_kvm_device(&no_device()), Ok(false)));
    let unknown = PathProbe { exists: Err("permission denied".to_string()), is_symlink: false };
    match TdxDeviceKvmV15::is_available(&unknown) {
        Err(Error::NotSupported(text)) => assert_eq!(text, "permission denied"),
        other => panic!("unexpected {:?}", other),
    }
}

#[test]
fn a_symlink_is_never_available() {
    for exists in [true, false] {
        let probe = PathProbe { exists: Ok(exists), is_symlink: true };
        match TdxDeviceKvmV15::is_available(&probe) {
            Err(Error::NotSupported(text)) => assert_eq!(text, "Path /dev/tdx_guest is a symlink"),
            other => panic!("unexpected {:?}", other),
        }
        assert!(matches!(is_v15_kvm_device(&probe), Err(Error::NotSupported(_))));
        // the device built on it is the sentinel: every call fails fast
        let device = TdxDeviceKvmV15::new(&probe);
        assert_eq!(device.state(), DeviceState::Unavailable);
        let (next, step) =
            device.get_tdreport_raw(&[0; 1088], DeviceState::Available, DeviceEvent::Start);
        assert_eq!(next, DeviceState::Unavailable);
        match step {
            Step::Finish(Err(Error::NotSupported(text))) => {
                assert_eq!(text, "TDX 1.5 KVM device is not supported")
            }
            other => panic!("unexpected {:?}", other),
        }
    }
    let failed = PathProbe { exists: Err("io".to_string()), is_symlink: true };
    assert!(matches!(TdxDeviceKvmV15::is_available(&failed), Err(Error::NotSupported(_))));
}

#[test]
fn the_command_encodes_the_request() {
    assert_eq!(TDX15_DEV_PATH, "/dev/tdx_guest");
    assert_eq!(TDX_CMD_GET_REPORT0_V1_5, u64::from_be_bytes([0, 0, 0, 0, 0xc4, 0x40, b'T', 1]));
    // direction read-write, size 1088, type 'T', number 1
    assert_eq!(TDX_CMD_GET_REPORT0_V1_5, (3 << 30) | (1088 << 16) | ((b'T' as u64) << 8) | 1);
}

#[test]
fn a_report_is_retrieved_step_by_step() {
    let device = TdxDeviceKvmV15::new(&device_present());
    assert_eq!(device.state(), DeviceState::Available);
    let mut request = [0u8; 1088];
    request[0] = 42;

    let (state, step) = device.get_tdreport_raw(&request, device.state(), DeviceEvent::Start);
    assert_eq!(state, DeviceState::Available);
    match step {
        Step::Perform(DeviceAction::Open { path }) => assert_eq!(path, "/dev/tdx_guest"),
        other => panic!("unexpected {:?}", other),
    }

    let (state, step) = device.get_tdreport_raw(&request, state, DeviceEvent::Opened);
    assert_eq!(state, DeviceState::Opened);
    let buffer = match step {
        Step::Perform(DeviceAction::Ioctl { command, buffer }) => {
            assert_eq!(command, 0xc4405401);
            assert_eq!(buffer, request);
            buffer
        }
        other => panic!("unexpected {:?}", other),
    };

    let event = DeviceEvent::IoctlReturned {
        ret: 0,
        errno: 0,
        errno_text: String::new(),
        buffer: filled(buffer, 7),
    };
    let (state, step) = device.get_tdreport_raw(&request, state, event);
    assert_eq!(state, DeviceState::Completed);
    match step {
        Step::Finish(Ok(raw)) => assert_eq!(raw, filled(request, 7)),
        other => panic!("unexpected {:?}", other),
    }
}

#[test]
fn a_device_that_cannot_be_opened_is_a_quote_error() {
    let device = TdxDeviceKvmV15::new(&device_present());
    let event = DeviceEvent::OpenFailed("Permission denied (os error 13)".to_string());
    let (state, step) = device.get_tdreport_raw(&[0; 1088], DeviceState::Available, event);
    assert_eq!(state, DeviceState::Failed);
    match step {
        Step::Finish(Err(Error::QuoteError(text))) => assert_eq!(
            text,
            "Failed to open TDX device at /dev/tdx_guest: Permission denied (os error 13)"
        ),
        other => panic!("unexpected {:?}", other),
    }
}

#[test]
fn a_negative_return_is_a_quote_error_with_the_error_code() {
    let device = TdxDeviceKvmV15::new(&device_present());
    for (ret, errno) in [(-1, 19), (i32::MIN, -5)] {
        let event = DeviceEvent::IoctlReturned {
            ret,
            errno,
            errno_text: "No such device (os error 19)".to_string(),
            buffer: [3; 1088],
        };
        let (state, step) = device.get_tdreport_raw(&[0; 1088], DeviceState::Opened, event);
        assert_eq!(state, DeviceState::Failed);
        match step {
            Step::Finish(Err(Error::QuoteError(text))) => assert_eq!(
                text,
                format!("IOCTL failed with errno {}: No such device (os error 19)", errno)
            ),
            other => panic!("unexpected {:?}", other),
        }
    }
    // any return that is not negative completes the call
    let event = DeviceEvent::IoctlReturned {
        ret: i32::MAX,
        errno: 19,
        errno_text: "stale".to_string(),
        buffer: [3; 1088],
    };
    let (state, step) = device.get_tdreport_raw(&[0; 1088], DeviceState::Opened, event);
    assert_eq!(state, DeviceState::Completed);
    assert!(matches!(step, Step::Finish(Ok(raw)) if raw == [3; 1088]));
}

fn expect_unexpected(next: (DeviceState, Step<DeviceAction, [u8; 1088]>)) {
    assert_eq!(next.0, DeviceState::Failed);
    match next.1 {
        Step::Finish(Err(Error::QuoteError(text))) => assert_eq!(text, "Unexpected TDX device event"),
        other => panic!("unexpected {:?}", other),
    }
}

#[test]
fn an_event_out_of_order_ends_the_retrieval() {
    let device = TdxDeviceKvmV15::new(&device_present());
    let req = [0u8; 1088];
    let returned = || DeviceEvent::IoctlReturned {
        ret: 0,
        errno: 0,
        errno_text: String::new(),
        buffer: [1; 1088],
    };
    expect_unexpected(device.get_tdreport_raw(&req, DeviceState::Available, returned()));
    expect_unexpected(device.get_tdreport_raw(&req, DeviceState::Opened, DeviceEvent::Start));
    expect_unexpected(device.get_tdreport_raw(&req, DeviceState::Opened, DeviceEvent::Opened));
    expect_unexpected(device.get_tdreport_raw(
        &req,
        DeviceState::Opened,
        DeviceEvent::OpenFailed("late".to_string()),
    ));
    for state in [DeviceState::Completed, DeviceState::Failed, DeviceState::Unavailable] {
        expect_unexpected(device.get_tdreport_raw(&req, state, DeviceEvent::Start));
        expect_unexpected(device.get_tdreport_raw(&req, state, returned()));
    }
}

/// Plays the part of a device that fills every report byte with `fill`.
fn run_measurement(provider: &LinuxTdxProvider, fill: u8) -> Result<[u8; 48]> {
    let mut state = DeviceState::Available;
    let mut event = DeviceEvent::Start;
    let mut rounds = 0;
    loop {
        rounds += 1;
        assert!(rounds <= 3);
        let (next, step) = provider.get_launch_measurement(state, event);
        state = next;
        match step {
            Step::Perform(DeviceAction::Open { path }) => {
                assert_eq!(path, TDX15_DEV_PATH);
                event = DeviceEvent::Opened;
            }
            Step::Perform(DeviceAction::Ioctl { command, buffer }) => {
                assert_eq!(command, TDX_CMD_GET_REPORT0_V1_5);
                // the provider leaves the report data empty
                assert_eq!(buffer, [0u8; 1088]);
                event = DeviceEvent::IoctlReturned {
                    ret: 0,
                    errno: 0,
                    errno_text: String::new(),
                    buffer: filled(buffer, fill),
                };
            }
            Step::Finish(result) => {
                assert!(state == DeviceState::Completed || result.is_err());
                return result;
            }
        }
    }
}

#[test]
fn the_provider_gives_the_mrtd_of_the_report() {
    let provider = LinuxTdxProvider::new(device_present());
    assert_eq!(run_measurement(&provider, 0xab).unwrap(), [0xab; 48]);
    let missing = LinuxTdxProvider::new(no_device());
    assert!(matches!(run_measurement(&missing, 0xab), Err(Error::NotSupported(_))));
}

#[test]
fn the_provider_gives_the_report_as_json() {
    let provider = LinuxTdxProvider::new(device_present());
    let (state, step) = provider.get_attestation_report(DeviceState::Available, DeviceEvent::Start);
    assert!(matches!(step, Step::Perform(DeviceAction::Open { .. })));
    let (state, step) = provider.get_attestation_report(state, DeviceEvent::Opened);
    let buffer = match step {
        Step::Perform(DeviceAction::Ioctl { buffer, .. }) => buffer,
        other => panic!("unexpected {:?}", other),
    };
    let mut reply = buffer;
    for (i, byte) in reply[64..].iter_mut().enumerate() {
        *byte = (i % 200) as u8;
    }
    let event =
        DeviceEvent::IoctlReturned { ret: 0, errno: 0, errno_text: String::new(), buffer: reply };
    let (state, step) = provider.get_attestation_report(state, event);
    assert_eq!(state, DeviceState::Completed);
    let text = match step {
        Step::Finish(Ok(text)) => text,
        other => panic!("unexpected {:?}", other),
    };
    let expected = TdReportV15::get_tdreport_from_bytes(&reply).unwrap().to_json().unwrap();
    assert_eq!(text, expected);
    let value: serde_json::Value = serde_json::from_str(&text).unwrap();
    assert_eq!(value["td_info"]["mrtd"][0].as_u64(), Some(((512 + 16) % 200) as u64));
}

#[test]
fn the_report_of_a_retrieval_is_parsed() {
    let report_data = [5u8; 64];
    let probe = device_present();
    let (state, _) =
        get_tdreport_v15_kvm(&report_data, &probe, DeviceState::Available, DeviceEvent::Start);
    let (state, step) = get_tdreport_v15_kvm(&report_data, &probe, state, DeviceEvent::Opened);
    let buffer = match step {
        Step::Perform(DeviceAction::Ioctl { buffer, .. }) => buffer,
        other => panic!("unexpected {:?}", other),
    };
    assert_eq!(buffer, TdReportV15::create_request(&report_data));
    let event = DeviceEvent::IoctlReturned {
        ret: 0,
        errno: 0,
        errno_text: String::new(),
        buffer: filled(buffer, 9),
    };
    let (state, step) = get_tdreport_v15_kvm(&report_data, &probe, state, event);
    assert_eq!(state, DeviceState::Completed);
    match step {
        Step::Finish(Ok(report)) => assert_eq!(report.get_mrtd(), [9u8; 48]),
        other => panic!("unexpected {:?}", other),
    }
}
