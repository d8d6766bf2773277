//! Retrieval and verification of the attestations of Intel TDX workloads.
//!
//! The crate holds the logic of the attestation evidence pipeline and leaves
//! every contact with the outside (the guest device, files, the endorsement
//! store) to its caller:
//! - `error`: the error type shared by every module
//! - `step`: the shape of a protocol whose outside work is the caller's
//! - `provider`: what a platform that issues attestations offers
//! - `tdx`: the `TDREPORT` codec, the guest device protocol and the provider
//!   on Linux guests
//! - `host`: what a host that endorses launch measurements offers
//! - `gcp`: the verification of launch endorsements of the Google Cloud
//!   Platform
//! - `verification`: the checks on certificates and signatures

use vstd::prelude::*;
use vstd::string::*;
use crate::error::Error;
use crate::gcp::{endorsement_step, EndorsementAction, EndorsementEvent, EndorsementState, GcpTdxHost};
use crate::host::TeeHost;
use crate::provider::AttestationProvider;
use crate::step::Step;
use crate::tdx::linux::device::{availability, DeviceAction, DeviceEvent, DeviceState, PathProbe};
use crate::tdx::linux::is_v15_kvm_device;
use crate::tdx::{attestation_step, measurement_step, LinuxTdxProvider};

pub mod error;
pub mod gcp;
pub mod host;
pub mod provider;
pub mod step;
pub mod tdx;
pub mod verification;

verus! {

/// The name of the platform of Linux guests with TDX 1.5.
pub const TDX_LINUX: &'static str = "tdx-linux";

/// The name of the Google Cloud Platform as the host of TDX guests.
pub const GCP_TDX: &'static str = "gcp-tdx";

/// Whether two texts are the same.
pub fn same_text(a: &str, b: &str) -> (same: bool)
    ensures
        same == (a@ == b@),
{
    String::from_str(a) == String::from_str(b)
}

/// The name of the platform that the program runs on: `tdx-linux` where
/// support for TDX on Linux is enabled and the guest device is available, and
/// the name of the operating system otherwise.
///
/// With the support enabled, a device path of which availability cannot be
/// told, a symbolic link among them, is refused with `NotSupported`. With the
/// support disabled the device is not looked at.
pub fn get_platform_name(os_name: &str, tdx_linux: bool, probe: &PathProbe) -> (res: Result<
    String,
    Error,
>)
    ensures
        !tdx_linux ==> (res matches Ok(name) && name@ == os_name@),
        tdx_linux ==> match availability(*probe) {
            Ok(true) => res matches Ok(name) && name@ == TDX_LINUX@,
            Ok(false) => res matches Ok(name) && name@ == os_name@,
            Err(text) => res matches Err(Error::NotSupported(t)) && t@ == text,
        },
{
    if tdx_linux {
        match is_v15_kvm_device(probe) {
            Ok(true) => {
                return Ok(String::from_str(TDX_LINUX));
            },
            Ok(false) => {},
            Err(e) => {
                return Err(e);
            },
        }
    }
    Ok(String::from_str(os_name))
}

/// The error for an operation that a platform does not offer: it names the
/// operation and the platform.
pub fn unsupported(operation: &str, platform: &str) -> (e: Error)
    ensures
        e matches Error::NotSupported(text) && text@ == operation@ + " is not supported on platform "@
            + platform@,
{
    Error::NotSupported(
        String::from_str(operation).concat(" is not supported on platform ").concat(platform),
    )
}

/// One step of retrieving the attestation report on the platform named
/// `platform`, of which the file system says `probe`. On `tdx-linux` it is the
/// step of the Linux provider; any other platform is refused with
/// `NotSupported`.
pub fn get_attestation_report(
    platform: &str,
    probe: PathProbe,
    state: DeviceState,
    event: DeviceEvent,
) -> (next: (DeviceState, Step<DeviceAction, String>))
    ensures
        platform@ == TDX_LINUX@ ==> attestation_step(probe, state, event, next.0, next.1),
        platform@ != TDX_LINUX@ ==> next.0 == DeviceState::Unavailable && (next.1 matches Step::Finish(
            Err(Error::NotSupported(text)),
        ) && text@ == "get_attestation_report"@ + " is not supported on platform "@ + platform@),
{
    if same_text(platform, TDX_LINUX) {
        LinuxTdxProvider::new(probe).get_attestation_report(state, event)
    } else {
        (DeviceState::Unavailable, Step::Finish(Err(unsupported("get_attestation_report", platform))))
    }
}

/// One step of retrieving the launch measurement on the platform named
/// `platform`, of which the file system says `probe`. On `tdx-linux` it is the
/// step of the Linux provider; any other platform is refused with
/// `NotSupported`.
pub fn get_launch_measurement(
    platform: &str,
    probe: PathProbe,
    state: DeviceState,
    event: DeviceEvent,
) -> (next: (DeviceState, Step<DeviceAction, [u8; 48]>))
    ensures
        platform@ == TDX_LINUX@ ==> measurement_step(probe, state, event, next.0, next.1),
        platform@ != TDX_LINUX@ ==> next.0 == DeviceState::Unavailable && (next.1 matches Step::Finish(
            Err(Error::NotSupported(text)),
        ) && text@ == "get_launch_measurement"@ + " is not supported on platform "@ + platform@),
{
    if same_text(platform, TDX_LINUX) {
        LinuxTdxProvider::new(probe).get_launch_measurement(state, event)
    } else {
        (DeviceState::Unavailable, Step::Finish(Err(unsupported("get_launch_measurement", platform))))
    }
}

/// One step of verifying the launch measurement `mrtd` against the
/// endorsement of the host platform named `host_platform`. On `gcp-tdx` it is
/// the step of the GCP host; any other platform is refused with
/// `NotSupported`.
pub fn verify_launch_endorsement(
    host_platform: &str,
    mrtd: &[u8; 48],
    state: EndorsementState,
    event: EndorsementEvent,
) -> (next: (EndorsementState, Step<EndorsementAction, bool>))
    ensures
        host_platform@ == GCP_TDX@ ==> endorsement_step(mrtd@, state, event, next.0, next.1),
        host_platform@ != GCP_TDX@ ==> next.0 is Done && (next.1 matches Step::Finish(
            Err(Error::NotSupported(text)),
        ) && text@ == "verify_launch_endorsement"@ + " is not supported on platform "@
            + host_platform@),
{
    if same_text(host_platform, GCP_TDX) {
        GcpTdxHost::new(mrtd).verify_launch_endorsement(state, event)
    } else {
        (
            EndorsementState::Done,
            Step::Finish(Err(unsupported("verify_launch_endorsement", host_platform))),
        )
    }
}

} // verus!
