use crate::app::cycle::{DeviceCycleOutcome, DeviceCycleResult, DeviceDisplay, ErrorRefreshRequest};
use crate::app::RunTrigger;
use crate::power::{SleepPlan, WakeProbe};
use crate::state::WakeReason;
use vstd::prelude::*;

verus! {

/// How a run of the device on its own board ended.
#[derive(Clone, Debug, PartialEq, Eq, Structural)]
pub enum EspDeviceRunOutcome {
    Completed(DeviceCycleOutcome),
    SelfTest,
    PeripheralInitError,
    StorageMountError,
    EpdInitError,
    StateWriteError,
}

impl EspDeviceRunOutcome {
    pub open spec fn spec_label(&self) -> Seq<char> {
        match self {
            EspDeviceRunOutcome::Completed(_) => "completed"@,
            EspDeviceRunOutcome::SelfTest => "self-test"@,
            EspDeviceRunOutcome::PeripheralInitError => "peripheral-init-error"@,
            EspDeviceRunOutcome::StorageMountError => "storage-mount-error"@,
            EspDeviceRunOutcome::EpdInitError => "epd-init-error"@,
            EspDeviceRunOutcome::StateWriteError => "state-write-error"@,
        }
    }

    /// The short name the device logs for the outcome.
    pub fn label(&self) -> (label: &'static str)
        ensures
            label@ == self.spec_label(),
    {
        match self {
            EspDeviceRunOutcome::Completed(_) => "completed",
            EspDeviceRunOutcome::SelfTest => "self-test",
            EspDeviceRunOutcome::PeripheralInitError => "peripheral-init-error",
            EspDeviceRunOutcome::StorageMountError => "storage-mount-error",
            EspDeviceRunOutcome::EpdInitError => "epd-init-error",
            EspDeviceRunOutcome::StateWriteError => "state-write-error",
        }
    }
}

/// What a run of the device on its own board reports: how it ended, the cycle
/// it ran, and when it wakes next.
#[derive(Debug, PartialEq, Eq)]
pub struct EspDeviceRunReport {
    pub outcome: EspDeviceRunOutcome,
    pub cycle: Option<DeviceCycleResult>,
    pub next_run_plan: Option<SleepPlan>,
}

/// What the panel self-test found.
#[derive(Clone, Copy, Debug, PartialEq, Eq, Structural)]
pub enum EpdProbe {
    Refreshed,
    PhotoRefreshed,
    ImageFormatError,
    ImageReadError,
    InitError,
    BusyTimeout,
    TransportError,
}

impl EpdProbe {
    pub open spec fn spec_label(self) -> Seq<char> {
        match self {
            EpdProbe::Refreshed => "refreshed"@,
            EpdProbe::PhotoRefreshed => "photo-refreshed"@,
            EpdProbe::ImageFormatError => "image-format-error"@,
            EpdProbe::ImageReadError => "image-read-error"@,
            EpdProbe::InitError => "init-error"@,
            EpdProbe::BusyTimeout => "busy-timeout"@,
            EpdProbe::TransportError => "transport-error"@,
        }
    }

    pub fn label(self) -> (label: &'static str)
        ensures
            label@ == self.spec_label(),
    {
        match self {
            EpdProbe::Refreshed => "refreshed",
            EpdProbe::PhotoRefreshed => "photo-refreshed",
            EpdProbe::ImageFormatError => "image-format-error",
            EpdProbe::ImageReadError => "image-read-error",
            EpdProbe::InitError => "init-error",
            EpdProbe::BusyTimeout => "busy-timeout",
            EpdProbe::TransportError => "transport-error",
        }
    }
}

/// What the self-test found of the wake marker file.
#[derive(Clone, Copy, Debug, PartialEq, Eq, Structural)]
pub enum WakeMarkerProbe {
    Timer,
    Unknown,
    Missing,
    ReadError,
    WriteError,
}

impl WakeMarkerProbe {
    pub open spec fn spec_label(self) -> Seq<char> {
        match self {
            WakeMarkerProbe::Timer => "timer"@,
            WakeMarkerProbe::Unknown => "unknown"@,
            WakeMarkerProbe::Missing => "missing"@,
            WakeMarkerProbe::ReadError => "read-error"@,
            WakeMarkerProbe::WriteError => "write-error"@,
        }
    }

    pub fn label(self) -> (label: &'static str)
        ensures
            label@ == self.spec_label(),
    {
        match self {
            WakeMarkerProbe::Timer => "timer",
            WakeMarkerProbe::Unknown => "unknown",
            WakeMarkerProbe::Missing => "missing",
            WakeMarkerProbe::ReadError => "read-error",
            WakeMarkerProbe::WriteError => "write-error",
        }
    }
}

/// The trigger a run starts with, from why the chip woke: a timer or the button
/// as such, a wake the platform cannot name as a fresh start, anything else as
/// an outside wake.
pub open spec fn spec_run_trigger_for_wake(wake: WakeProbe) -> RunTrigger {
    match wake {
        WakeProbe::Timer => RunTrigger::Wake(WakeReason::Timer),
        WakeProbe::Button => RunTrigger::Wake(WakeReason::Button),
        WakeProbe::Unknown => RunTrigger::Startup,
        WakeProbe::Ulp => RunTrigger::Wake(WakeReason::External),
        WakeProbe::Other(_) => RunTrigger::Wake(WakeReason::External),
    }
}

pub fn run_trigger_for_wake(wake: WakeProbe) -> (trigger: RunTrigger)
    ensures
        trigger == spec_run_trigger_for_wake(wake),
{
    match wake {
        WakeProbe::Timer => RunTrigger::Wake(WakeReason::Timer),
        WakeProbe::Button => RunTrigger::Wake(WakeReason::Button),
        WakeProbe::Unknown => RunTrigger::Startup,
        WakeProbe::Ulp => RunTrigger::Wake(WakeReason::External),
        WakeProbe::Other(_) => RunTrigger::Wake(WakeReason::External),
    }
}

/// How the device spends the time until its next run.
#[derive(Clone, Copy, Debug, PartialEq, Eq, Structural)]
pub enum NextRunWait {
    /// The next run is due at once: there is nothing to wait for.
    Immediate,
    /// On outside power with a usable panel: stay awake until the restart time
    /// and listen for a long press of the self-test key meanwhile.
    AwakeWithKeyListener,
    /// On outside power without a usable panel: stay awake until the restart time.
    Awake,
    /// On battery: deep sleep until the next run.
    DeepSleep,
}

pub open spec fn spec_next_run_wait(wait_seconds: u64, externally_powered: bool, display_available: bool) -> NextRunWait {
    if wait_seconds == 0 {
        NextRunWait::Immediate
    } else if externally_powered && display_available {
        NextRunWait::AwakeWithKeyListener
    } else if externally_powered {
        NextRunWait::Awake
    } else {
        NextRunWait::DeepSleep
    }
}

/// Chooses how to wait for the next run: deep sleep saves the battery, while a
/// frame on outside power stays awake (and, with a working panel, keeps the
/// self-test key live).
pub fn next_run_wait(wait_seconds: u64, externally_powered: bool, display_available: bool) -> (wait: NextRunWait)
    ensures
        wait == spec_next_run_wait(wait_seconds, externally_powered, display_available),
{
    if wait_seconds == 0 {
        NextRunWait::Immediate
    } else if externally_powered && display_available {
        NextRunWait::AwakeWithKeyListener
    } else if externally_powered {
        NextRunWait::Awake
    } else {
        NextRunWait::DeepSleep
    }
}

/// The error page shown when the memory card cannot be used.
pub fn storage_error_request(now_epoch_seconds: u64) -> (request: ErrorRefreshRequest)
    ensures
        request.title@ == "STORAGE ERROR"@,
        request.message@ == "TF CARD IS NOT AVAILABLE"@,
        request.hint@ == "CHECK TF CARD AND SLOT"@,
        request.detail@ == "MOUNT /SDCARD FAILED"@,
        request.now_epoch_seconds == now_epoch_seconds,
{
    ErrorRefreshRequest {
        title: String::from_str("STORAGE ERROR"),
        message: String::from_str("TF CARD IS NOT AVAILABLE"),
        hint: String::from_str("CHECK TF CARD AND SLOT"),
        detail: String::from_str("MOUNT /SDCARD FAILED"),
        now_epoch_seconds,
    }
}

/// Shows the storage error page; a failure to show it is reported to the caller.
pub fn refresh_storage_error_page<D: DeviceDisplay>(display: &mut D, now_epoch_seconds: u64) -> (result: Result<
    (),
    D::Error,
>)
    ensures
        final(display).photo_requests() == old(display).photo_requests(),
        final(display).page_requests().len() == old(display).page_requests().len() + 1,
        final(display).page_requests().take(old(display).page_requests().len() as int) == old(
            display,
        ).page_requests(),
        final(display).page_requests().last().title@ == "STORAGE ERROR"@,
        final(display).page_requests().last().message@ == "TF CARD IS NOT AVAILABLE"@,
        final(display).page_requests().last().hint@ == "CHECK TF CARD AND SLOT"@,
        final(display).page_requests().last().detail@ == "MOUNT /SDCARD FAILED"@,
        final(display).page_requests().last().now_epoch_seconds == now_epoch_seconds,
{
    let request = storage_error_request(now_epoch_seconds);
    let ghost before = display.page_requests();
    let result = display.refresh_error_page(request);
    assert(display.page_requests().take(before.len() as int) =~= before);
    result
}

} // verus!
