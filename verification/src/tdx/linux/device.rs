//! The protocol of the TDX 1.5 KVM guest device at `/dev/tdx_guest`.
//!
//! The library never touches the device. It decides: from what the file
//! system says of the device path whether the device may be used, and from
//! each outcome of the caller's work on the device what to do next. The caller
//! opens the device, issues the control call and reports back.

use vstd::prelude::*;
use vstd::string::*;
use crate::error::Error;
use crate::step::Step;

verus! {

/// The path of the device node of TDX 1.5.
pub const TDX15_DEV_PATH: &'static str = "/dev/tdx_guest";

/// The control command `TDX_CMD_GET_REPORT0`: a read-write command of type
/// `'T'`, number 1, on a buffer of 1088 bytes.
pub const TDX_CMD_GET_REPORT0_V1_5: u64 = 0xc440_5401;

/// What the file system says of a path.
#[derive(Debug)]
pub struct PathProbe {
    /// Whether the path leads to something, symbolic links followed, or why
    /// that could not be told.
    pub exists: Result<bool, String>,
    /// Whether the path itself is a symbolic link.
    pub is_symlink: bool,
}

/// How far the retrieval of a report has come.
#[derive(Clone, Copy, Debug, PartialEq, Eq, Structural)]
pub enum DeviceState {
    /// The device may be used; it is not open.
    Available,
    /// The device may not be used. No call reaches it.
    Unavailable,
    /// The device is open and the control call has been asked for.
    Opened,
    /// The control call has filled the buffer; the device is released.
    Completed,
    /// Opening or calling the device failed; the device is released.
    Failed,
}

/// What the caller reports of the device.
#[derive(Debug)]
pub enum DeviceEvent {
    /// A report is wanted.
    Start,
    /// The device was opened for reading and writing.
    Opened,
    /// The device could not be opened, for the reason given.
    OpenFailed(String),
    /// The control call returned `ret`, with the buffer as the device left it
    /// and the platform's error code and its description as they stood then.
    IoctlReturned { ret: i32, errno: i32, errno_text: String, buffer: [u8; 1088] },
}

/// What the caller is to do with the device.
#[derive(Debug)]
pub enum DeviceAction {
    /// Open the device node at `path` for reading and writing.
    Open { path: String },
    /// Issue the control call `command` on the open device, with `buffer` as
    /// its argument, which the device changes in place.
    Ioctl { command: u64, buffer: [u8; 1088] },
}

/// Whether the device may be used, for what the file system says of its path:
/// it must exist and must not be a symbolic link. The error is the text of the
/// refusal.
pub open spec fn availability(probe: PathProbe) -> Result<bool, Seq<char>> {
    match probe.exists {
        Err(text) => Err(text@),
        Ok(exists) => if probe.is_symlink {
            Err("Path "@ + TDX15_DEV_PATH@ + " is a symlink"@)
        } else {
            Ok(exists)
        },
    }
}

/// A TDX 1.5 KVM device node.
#[derive(Debug)]
pub struct TdxDeviceKvmV15 {
    /// The path of the device node; empty where the device may not be used.
    device_path: String,
}

impl TdxDeviceKvmV15 {
    /// The path of the device node; empty where the device may not be used.
    pub closed spec fn spec_device_path(&self) -> Seq<char> {
        self.device_path@
    }

    /// Whether calls may reach the device.
    pub open spec fn usable(&self) -> bool {
        self.spec_device_path().len() > 0
    }

    /// The device for what the file system says of its path. It holds the
    /// device path where the device is available, and no path where it is not
    /// or where that could not be told.
    pub fn new(probe: &PathProbe) -> (device: TdxDeviceKvmV15)
        ensures
            availability(*probe) == Ok::<bool, Seq<char>>(true) ==> device.spec_device_path()
                == TDX15_DEV_PATH@,
            availability(*probe) != Ok::<bool, Seq<char>>(true) ==> device.spec_device_path()
                == Seq::<char>::empty(),
            device.usable() == (availability(*probe) == Ok::<bool, Seq<char>>(true)),
    {
        proof {
            reveal_strlit("");
            lemma_device_path_is_not_empty();
        }
        match Self::is_available(probe) {
            Ok(true) => TdxDeviceKvmV15 { device_path: String::from_str(TDX15_DEV_PATH) },
            _ => TdxDeviceKvmV15 { device_path: String::from_str("") },
        }
    }

    /// Whether the device node is there and may be used. A symbolic link in
    /// its place is refused with `NotSupported`, and so is a path of which the
    /// file system could not tell whether it exists.
    pub fn is_available(probe: &PathProbe) -> (res: Result<bool, Error>)
        ensures
            match availability(*probe) {
                Ok(available) => res == Ok::<bool, Error>(available),
                Err(text) => res matches Err(Error::NotSupported(t)) && t@ == text,
            },
            probe.is_symlink ==> res matches Err(Error::NotSupported(_)),
    {
        match &probe.exists {
            Err(text) => Err(Error::NotSupported(text.clone())),
            Ok(exists) => {
                if probe.is_symlink {
                    Err(
                        Error::NotSupported(
                            String::from_str("Path ").concat(TDX15_DEV_PATH).concat(
                                " is a symlink",
                            ),
                        ),
                    )
                } else {
                    Ok(*exists)
                }
            },
        }
    }

    /// The state in which the retrieval of a report starts.
    pub fn state(&self) -> (state: DeviceState)
        ensures
            state == (if self.usable() {
                DeviceState::Available
            } else {
                DeviceState::Unavailable
            }),
    {
        if self.device_path.as_str().is_empty() {
            DeviceState::Unavailable
        } else {
            DeviceState::Available
        }
    }

    /// One step of retrieving the raw report for the request `req`: what
    /// follows in `state` on `event`.
    ///
    /// Where the device may not be used, every step ends with `NotSupported`
    /// and asks nothing of the caller. Else a `Start` asks for the device to be
    /// opened; once open, the control call is asked for, on a copy of `req`;
    /// the call's buffer is the result where the call returned no negative
    /// number. A failure to open and a negative return end with `QuoteError`,
    /// and so does an event that the state does not expect. With `Finish` the
    /// caller releases the device if it holds it. Nothing is tried twice.
    pub fn get_tdreport_raw(&self, req: &[u8; 1088], state: DeviceState, event: DeviceEvent) -> (next:
        (DeviceState, Step<DeviceAction, [u8; 1088]>))
        ensures
            raw_step(self.spec_device_path(), *req, state, event, next.0, next.1),
    {
        if self.device_path.as_str().is_empty() {
            return (
                DeviceState::Unavailable,
                Step::Finish(
                    Err(Error::NotSupported(String::from_str("TDX 1.5 KVM device is not supported"))),
                ),
            );
        }
        match state {
            DeviceState::Available => match event {
                DeviceEvent::Start => (
                    DeviceState::Available,
                    Step::Perform(DeviceAction::Open { path: self.device_path.clone() }),
                ),
                DeviceEvent::Opened => (
                    DeviceState::Opened,
                    Step::Perform(
                        DeviceAction::Ioctl { command: TDX_CMD_GET_REPORT0_V1_5, buffer: *req },
                    ),
                ),
                DeviceEvent::OpenFailed(reason) => {
                    let text = String::from_str("Failed to open TDX device at ").concat(
                        self.device_path.as_str(),
                    ).concat(": ").concat(reason.as_str());
                    (DeviceState::Failed, Step::Finish(Err(Error::QuoteError(text))))
                },
                DeviceEvent::IoctlReturned { .. } => unexpected_event(),
            },
            DeviceState::Opened => match event {
                DeviceEvent::IoctlReturned { ret, errno, errno_text, buffer } => {
                    if ret < 0 {
                        let digits = errno.to_string();
                        let text = String::from_str("IOCTL failed with errno ").concat(
                            digits.as_str(),
                        ).concat(": ").concat(errno_text.as_str());
                        (DeviceState::Failed, Step::Finish(Err(Error::QuoteError(text))))
                    } else {
                        (DeviceState::Completed, Step::Finish(Ok(buffer)))
                    }
                },
                _ => unexpected_event(),
            },
            _ => unexpected_event(),
        }
    }
}

/// The end of a retrieval on an event that its state does not expect.
fn unexpected_event() -> (next: (DeviceState, Step<DeviceAction, [u8; 1088]>))
    ensures
        is_unexpected(next.0, next.1),
{
    (
        DeviceState::Failed,
        Step::Finish(Err(Error::QuoteError(String::from_str("Unexpected TDX device event")))),
    )
}

/// The step that ends a retrieval on an event that its state does not expect.
pub open spec fn is_unexpected(next: DeviceState, step: Step<DeviceAction, [u8; 1088]>) -> bool {
    &&& next == DeviceState::Failed
    &&& step matches Step::Finish(Err(Error::QuoteError(text)))
    &&& text@ == "Unexpected TDX device event"@
}

/// Whether `next` and `step` are what follows in `state` on `event`, for the
/// device whose path is `device_path` (empty where it may not be used) and the
/// request `req`.
pub open spec fn raw_step(
    device_path: Seq<char>,
    req: [u8; 1088],
    state: DeviceState,
    event: DeviceEvent,
    next: DeviceState,
    step: Step<DeviceAction, [u8; 1088]>,
) -> bool {
    if device_path.len() == 0 {
        &&& next == DeviceState::Unavailable
        &&& step matches Step::Finish(Err(Error::NotSupported(text)))
        &&& text@ == "TDX 1.5 KVM device is not supported"@
    } else {
        match (state, event) {
            (DeviceState::Available, DeviceEvent::Start) => {
                &&& next == DeviceState::Available
                &&& step matches Step::Perform(DeviceAction::Open { path })
                &&& path@ == device_path
            },
            (DeviceState::Available, DeviceEvent::Opened) => {
                &&& next == DeviceState::Opened
                &&& step matches Step::Perform(DeviceAction::Ioctl { command, buffer })
                &&& command == TDX_CMD_GET_REPORT0_V1_5
                &&& buffer == req
            },
            (DeviceState::Available, DeviceEvent::OpenFailed(reason)) => {
                &&& next == DeviceState::Failed
                &&& step matches Step::Finish(Err(Error::QuoteError(text)))
                &&& text@ == "Failed to open TDX device at "@ + device_path + ": "@ + reason@
            },
            (DeviceState::Opened, DeviceEvent::IoctlReturned { ret, errno, errno_text, buffer }) => {
                if ret < 0 {
                    &&& next == DeviceState::Failed
                    &&& step matches Step::Finish(Err(Error::QuoteError(text)))
                    &&& exists|digits: String|
                        to_string_from_display_ensures::<i32>(&errno, digits) && text@
                            == "IOCTL failed with errno "@ + digits@ + ": "@ + errno_text@
                } else {
                    &&& next == DeviceState::Completed
                    &&& step == Step::<DeviceAction, [u8; 1088]>::Finish(Ok(buffer))
                }
            },
            _ => is_unexpected(next, step),
        }
    }
}

/// The path of the device node is not the empty path that stands for a device
/// that may not be used.
pub proof fn lemma_device_path_is_not_empty()
    ensures
        TDX15_DEV_PATH@.len() > 0,
{
    reveal_strlit("/dev/tdx_guest");
}

/// The number of a control command that moves `size` bytes in the direction
/// `dir`, of the type `ty` and the number `nr`: two bits of direction, 14 of
/// size, eight of type, eight of number.
pub open spec fn ioctl_command(dir: u64, size: u64, ty: u64, nr: u64) -> u64 {
    dir << 30 | size << 16 | ty << 8 | nr
}

/// The command for a report is the read-write command of type `'T'` and
/// number 1 whose buffer has the length of a request.
pub proof fn lemma_command_encodes_request()
    ensures
        TDX_CMD_GET_REPORT0_V1_5 == ioctl_command(3, 1088, 0x54, 1),
{
    assert(0xc440_5401u64 == 3u64 << 30 | 1088u64 << 16 | 0x54u64 << 8 | 1u64) by (bit_vector);
}

/// A device that may not be used is never asked anything: whatever the state
/// and the event, the step ends with `NotSupported`.
pub proof fn lemma_sentinel_fails_fast(
    req: [u8; 1088],
    state: DeviceState,
    event: DeviceEvent,
    next: DeviceState,
    step: Step<DeviceAction, [u8; 1088]>,
)
    requires
        raw_step(Seq::empty(), req, state, event, next, step),
    ensures
        next == DeviceState::Unavailable,
        step matches Step::Finish(Err(Error::NotSupported(_))),
{
}

/// The device is asked for one thing at a time and for nothing twice: it is
/// opened only on `Start` while it is not open, the control call is made only
/// on the news that it was opened, and once a retrieval has ended or the
/// control call has returned, nothing more is asked.
pub proof fn lemma_no_retries(
    device_path: Seq<char>,
    req: [u8; 1088],
    state: DeviceState,
    event: DeviceEvent,
    next: DeviceState,
    step: Step<DeviceAction, [u8; 1088]>,
)
    requires
        raw_step(device_path, req, state, event, next, step),
    ensures
        step matches Step::Perform(DeviceAction::Open { .. }) ==> state == DeviceState::Available
            && event is Start && next == DeviceState::Available,
        step matches Step::Perform(DeviceAction::Ioctl { .. }) ==> state == DeviceState::Available
            && event is Opened && next == DeviceState::Opened,
        state != DeviceState::Available ==> step is Finish,
        step is Finish ==> next == DeviceState::Unavailable || next == DeviceState::Completed || next
            == DeviceState::Failed,
        step matches Step::Finish(Ok(_)) ==> state == DeviceState::Opened && next
            == DeviceState::Completed,
{
}

} // verus!
