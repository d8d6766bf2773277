//! Intel TDX guest attestation.

use vstd::prelude::*;
use crate::error::Error;
use crate::provider::AttestationProvider;
use crate::step::Step;
use crate::tdx::linux::device::{DeviceAction, DeviceEvent, DeviceState, PathProbe};
use crate::tdx::linux::{get_tdreport_v15_kvm, report_step};
use crate::tdx::report::{tdreport_json, TdReportV15};

pub mod json;
pub mod linux;
pub mod report;

verus! {

/// The length of the `report_data` field of a TDX report.
pub const TDX_REPORT_DATA_LEN: usize = 64;

/// The length of a TDX measurement register.
pub const TDX_MR_REG_LEN: usize = 48;

/// What follows from a step of retrieving the report when the attestation
/// report is wanted: the device's actions and errors are handed on, and the
/// report is rendered as JSON text.
pub open spec fn attestation_follows(
    report: Step<DeviceAction, TdReportV15>,
    step: Step<DeviceAction, String>,
) -> bool {
    match report {
        Step::Perform(action) => step == Step::<DeviceAction, String>::Perform(action),
        Step::Finish(Err(e)) => step == Step::<DeviceAction, String>::Finish(Err(e)),
        Step::Finish(Ok(report)) => {
            &&& step matches Step::Finish(Ok(text))
            &&& text@ == tdreport_json(report@)
        },
    }
}

/// What follows from a step of retrieving the report when the launch
/// measurement is wanted: the device's actions and errors are handed on, and
/// of the report its `MRTD` is the result.
pub open spec fn measurement_follows(
    report: Step<DeviceAction, TdReportV15>,
    step: Step<DeviceAction, [u8; 48]>,
) -> bool {
    match report {
        Step::Perform(action) => step == Step::<DeviceAction, [u8; 48]>::Perform(action),
        Step::Finish(Err(e)) => step == Step::<DeviceAction, [u8; 48]>::Finish(Err(e)),
        Step::Finish(Ok(report)) => step == Step::<DeviceAction, [u8; 48]>::Finish(
            Ok(report.spec_mrtd()),
        ),
    }
}

/// Whether `next` and `step` are what follows in `state` on `event` when the
/// attestation report is retrieved on a guest of which the file system says
/// `probe`.
pub open spec fn attestation_step(
    probe: PathProbe,
    state: DeviceState,
    event: DeviceEvent,
    next: DeviceState,
    step: Step<DeviceAction, String>,
) -> bool {
    exists|report_data: [u8; 64], report: Step<DeviceAction, TdReportV15>|
        report_data@ == crate::tdx::report::zeros(TDX_REPORT_DATA_LEN as nat) && #[trigger] report_step(
            probe,
            report_data,
            state,
            event,
            next,
            report,
        ) && attestation_follows(report, step)
}

/// Whether `next` and `step` are what follows in `state` on `event` when the
/// launch measurement is retrieved on a guest of which the file system says
/// `probe`.
pub open spec fn measurement_step(
    probe: PathProbe,
    state: DeviceState,
    event: DeviceEvent,
    next: DeviceState,
    step: Step<DeviceAction, [u8; 48]>,
) -> bool {
    exists|report_data: [u8; 64], report: Step<DeviceAction, TdReportV15>|
        report_data@ == crate::tdx::report::zeros(TDX_REPORT_DATA_LEN as nat) && #[trigger] report_step(
            probe,
            report_data,
            state,
            event,
            next,
            report,
        ) && measurement_follows(report, step)
}

/// The provider of attestation reports and launch measurements on a Linux
/// guest with TDX.
#[derive(Debug)]
pub struct LinuxTdxProvider {
    /// What the file system says of the path of the guest device.
    probe: PathProbe,
}

impl LinuxTdxProvider {
    /// What the file system says of the path of the guest device.
    pub closed spec fn spec_probe(&self) -> PathProbe {
        self.probe
    }

    /// The provider on a guest of which the file system says `probe`.
    pub fn new(probe: PathProbe) -> (provider: LinuxTdxProvider)
        ensures
            provider.spec_probe() == probe,
    {
        LinuxTdxProvider { probe }
    }

    /// One step of retrieving the `TDREPORT`. The report data is left empty:
    /// 64 zero bytes.
    pub fn get_tdreport(&self, state: DeviceState, event: DeviceEvent) -> (next: (
        DeviceState,
        Step<DeviceAction, TdReportV15>,
    ))
        ensures
            exists|report_data: [u8; 64]|
                report_data@ == crate::tdx::report::zeros(TDX_REPORT_DATA_LEN as nat)
                    && #[trigger] report_step(
                    self.spec_probe(),
                    report_data,
                    state,
                    event,
                    next.0,
                    next.1,
                ),
    {
        let ghost asked = event;
        let report_data: [u8; 64] = [0; 64];
        assert(report_data@ =~= crate::tdx::report::zeros(TDX_REPORT_DATA_LEN as nat));
        let next = get_tdreport_v15_kvm(&report_data, &self.probe, state, event);
        assert(report_step(self.spec_probe(), report_data, state, asked, next.0, next.1));
        next
    }
}

impl AttestationProvider for LinuxTdxProvider {
    type State = DeviceState;

    type Event = DeviceEvent;

    type Action = DeviceAction;

    /// One step of retrieving the attestation report: what follows in `state`
    /// on `event`. A retrieval starts in `Available` with `Start`. The last
    /// step gives the report as JSON text.
    fn get_attestation_report(&self, state: DeviceState, event: DeviceEvent) -> (next: (
        DeviceState,
        Step<DeviceAction, String>,
    ))
        ensures
            attestation_step(self.spec_probe(), state, event, next.0, next.1),
    {
        let ghost asked = event;
        let (device_next, report) = self.get_tdreport(state, event);
        let ghost witness = report;
        let step = match report {
            Step::Perform(action) => Step::Perform(action),
            Step::Finish(Err(e)) => Step::Finish(Err(e)),
            Step::Finish(Ok(report)) => Step::Finish(report.to_json()),
        };
        assert(attestation_follows(witness, step));
        assert(attestation_step(self.spec_probe(), state, asked, device_next, step));
        (device_next, step)
    }

    /// One step of retrieving the launch measurement: what follows in `state`
    /// on `event`. A retrieval starts in `Available` with `Start`. The last
    /// step gives the `MRTD` of the report.
    fn get_launch_measurement(&self, state: DeviceState, event: DeviceEvent) -> (next: (
        DeviceState,
        Step<DeviceAction, [u8; 48]>,
    ))
        ensures
            measurement_step(self.spec_probe(), state, event, next.0, next.1),
    {
        let ghost asked = event;
        let (device_next, report) = self.get_tdreport(state, event);
        let ghost witness = report;
        let step = match report {
            Step::Perform(action) => Step::Perform(action),
            Step::Finish(Err(e)) => Step::Finish(Err(e)),
            Step::Finish(Ok(report)) => Step::Finish(Ok(report.get_mrtd())),
        };
        assert(measurement_follows(witness, step));
        assert(measurement_step(self.spec_probe(), state, asked, device_next, step));
        (device_next, step)
    }
}

} // verus!
