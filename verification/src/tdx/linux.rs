//! TDX 1.5 on Linux guests, through the KVM guest device.

use vstd::prelude::*;
use crate::error::Error;
use crate::step::Step;
use crate::tdx::report::{zeros, TdReportV15, TDREPORT_LEN, TDREPORT_REQ_LEN};
use crate::tdx::{TDX_REPORT_DATA_LEN};
use crate::tdx::linux::device::{
    availability,
    raw_step,
    DeviceAction,
    DeviceEvent,
    DeviceState,
    PathProbe,
    TdxDeviceKvmV15,
    TDX15_DEV_PATH,
};

pub mod device;
pub mod rtmr;

verus! {

/// Whether the TDX 1.5 KVM device node is there and may be used, for what the
/// file system says of its path. A symbolic link in its place is refused with
/// `NotSupported`.
pub fn is_v15_kvm_device(probe: &PathProbe) -> (res: Result<bool, Error>)
    ensures
        match availability(*probe) {
            Ok(available) => res == Ok::<bool, Error>(available),
            Err(text) => res matches Err(Error::NotSupported(t)) && t@ == text,
        },
        probe.is_symlink ==> res matches Err(Error::NotSupported(_)),
{
    TdxDeviceKvmV15::is_available(probe)
}

/// The path of the device for what the file system says of it: the device
/// path where the device is available, and none where it is not.
pub open spec fn device_path_for(probe: PathProbe) -> Seq<char> {
    if availability(probe) == Ok::<bool, Seq<char>>(true) {
        TDX15_DEV_PATH@
    } else {
        Seq::empty()
    }
}

/// What follows from a step of retrieving the raw report: the device's
/// actions and errors are handed on, and a buffer that the device has filled
/// is parsed into the report that its last 1024 bytes hold.
pub open spec fn report_follows(
    raw: Step<DeviceAction, [u8; 1088]>,
    step: Step<DeviceAction, TdReportV15>,
) -> bool {
    match raw {
        Step::Perform(action) => step == Step::<DeviceAction, TdReportV15>::Perform(action),
        Step::Finish(Err(e)) => step == Step::<DeviceAction, TdReportV15>::Finish(Err(e)),
        Step::Finish(Ok(buffer)) => step matches Step::Finish(Ok(report)) && report@
            == buffer@.subrange(TDX_REPORT_DATA_LEN as int, TDREPORT_REQ_LEN as int),
    }
}

/// Whether `next` and `step` are what follows in `state` on `event` when the
/// report for `report_data` is retrieved from the device of which the file
/// system says `probe`: what follows from the step of retrieving the raw
/// report for the request that holds `report_data` and 1024 zero bytes.
pub open spec fn report_step(
    probe: PathProbe,
    report_data: [u8; 64],
    state: DeviceState,
    event: DeviceEvent,
    next: DeviceState,
    step: Step<DeviceAction, TdReportV15>,
) -> bool {
    exists|req: [u8; 1088], raw: Step<DeviceAction, [u8; 1088]>|
        req@ == report_data@ + zeros(TDREPORT_LEN as nat) && #[trigger] raw_step(
            device_path_for(probe),
            req,
            state,
            event,
            next,
            raw,
        ) && report_follows(raw, step)
}

/// One step of retrieving the `TDREPORT` for `report_data` from the TDX 1.5
/// KVM device and parsing it: what follows in `state` on `event`. A retrieval
/// starts in `Available` with `Start`.
pub fn get_tdreport_v15_kvm(
    report_data: &[u8; 64],
    probe: &PathProbe,
    state: DeviceState,
    event: DeviceEvent,
) -> (next: (DeviceState, Step<DeviceAction, TdReportV15>))
    ensures
        report_step(*probe, *report_data, state, event, next.0, next.1),
{
    let ghost asked = event;
    let tdx_device = TdxDeviceKvmV15::new(probe);
    let req = TdReportV15::create_request(report_data);
    let (device_next, raw) = tdx_device.get_tdreport_raw(&req, state, event);
    let ghost witness = raw;
    let step = match raw {
        Step::Perform(action) => Step::Perform(action),
        Step::Finish(Err(e)) => Step::Finish(Err(e)),
        Step::Finish(Ok(raw_report)) => Step::Finish(
            TdReportV15::get_tdreport_from_bytes(&raw_report),
        ),
    };
    assert(raw_step(device_path_for(*probe), req, state, asked, device_next, witness));
    assert(report_follows(witness, step));
    assert(report_step(*probe, *report_data, state, asked, device_next, step));
    (device_next, step)
}

} // verus!
