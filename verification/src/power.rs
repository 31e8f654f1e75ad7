use vstd::prelude::*;

verus! {

/// What the power-management chip reports about charging.
#[derive(Clone, Copy, Debug, PartialEq, Eq, Structural)]
pub enum ChargeState {
    Unknown,
    Discharging,
    Charging,
    Full,
}

/// A battery reading taken at wake-up.
#[derive(Clone, Copy, Debug, PartialEq, Eq, Structural)]
pub struct BatteryStatus {
    pub millivolts: u16,
    pub percent: Option<u8>,
    pub charge_state: ChargeState,
    pub low_battery: bool,
}

impl BatteryStatus {
    pub fn new(millivolts: u16, percent: Option<u8>, charge_state: ChargeState, low_battery: bool) -> (result: Self)
        ensures
            result == (BatteryStatus { millivolts, percent, charge_state, low_battery }),
    {
        BatteryStatus { millivolts, percent, charge_state, low_battery }
    }

    /// A reading for when the power-management chip could not be asked.
    pub fn unknown() -> (result: Self)
        ensures
            result == (BatteryStatus {
                millivolts: 0,
                percent: None,
                charge_state: ChargeState::Unknown,
                low_battery: false,
            }),
    {
        BatteryStatus { millivolts: 0, percent: None, charge_state: ChargeState::Unknown, low_battery: false }
    }

    /// Charging or full: the frame is on external power.
    pub open spec fn spec_externally_powered(&self) -> bool {
        self.charge_state == ChargeState::Charging || self.charge_state == ChargeState::Full
    }

    pub fn externally_powered(&self) -> (result: bool)
        ensures
            result == self.spec_externally_powered(),
    {
        match self.charge_state {
            ChargeState::Charging | ChargeState::Full => true,
            ChargeState::Unknown | ChargeState::Discharging => false,
        }
    }

    /// A low reading only counts while the frame is not on external power.
    pub open spec fn spec_effective_low_battery(&self) -> bool {
        self.low_battery && !self.spec_externally_powered()
    }

    pub fn effective_low_battery(&self) -> (result: bool)
        ensures
            result == self.spec_effective_low_battery(),
    {
        self.low_battery && !self.externally_powered()
    }
}

/// Where the frame takes its power from.
#[derive(Clone, Copy, Debug, PartialEq, Eq, Structural)]
pub enum PowerProfile {
    Battery,
    External,
}

impl PowerProfile {
    pub open spec fn spec_from_battery(battery: BatteryStatus) -> PowerProfile {
        if battery.spec_externally_powered() {
            PowerProfile::External
        } else {
            PowerProfile::Battery
        }
    }

    pub fn from_battery(battery: &BatteryStatus) -> (result: PowerProfile)
        ensures
            result == Self::spec_from_battery(*battery),
    {
        if battery.externally_powered() {
            PowerProfile::External
        } else {
            PowerProfile::Battery
        }
    }
}

/// When a battery reading counts as low.
#[derive(Clone, Copy, Debug, PartialEq, Eq, Structural)]
pub struct LowBatteryPolicy {
    pub stop_cloud_sync: bool,
    pub show_notice: bool,
    pub minimum_percent: Option<u8>,
    pub minimum_millivolts: Option<u16>,
}

impl Default for LowBatteryPolicy {
    fn default() -> (result: Self)
        ensures
            result == (LowBatteryPolicy {
                stop_cloud_sync: true,
                show_notice: true,
                minimum_percent: Some(15u8),
                minimum_millivolts: None,
            }),
    {
        LowBatteryPolicy {
            stop_cloud_sync: true,
            show_notice: true,
            minimum_percent: Some(15),
            minimum_millivolts: None,
        }
    }
}

impl LowBatteryPolicy {
    pub open spec fn spec_is_low_battery(&self, battery: BatteryStatus) -> bool {
        ||| battery.low_battery
        ||| (battery.percent matches Some(percent) && self.minimum_percent matches Some(minimum)
            && percent <= minimum)
        ||| (self.minimum_millivolts matches Some(minimum) && battery.millivolts != 0
            && battery.millivolts <= minimum)
    }

    pub fn is_low_battery(&self, battery: &BatteryStatus) -> (result: bool)
        ensures
            result == self.spec_is_low_battery(*battery),
    {
        if battery.low_battery {
            return true;
        }
        if let (Some(percent), Some(minimum_percent)) = (battery.percent, self.minimum_percent) {
            if percent <= minimum_percent {
                return true;
            }
        }
        if let Some(minimum_millivolts) = self.minimum_millivolts {
            if battery.millivolts != 0 && battery.millivolts <= minimum_millivolts {
                return true;
            }
        }
        false
    }
}

/// When the frame wakes up next: at a moment, or after a number of seconds.
#[derive(Clone, Copy, Debug, PartialEq, Eq, Structural)]
pub struct SleepPlan {
    pub next_wakeup_epoch_seconds: Option<u64>,
    pub deep_sleep_seconds: Option<u32>,
}

impl SleepPlan {
    pub fn wake_at(next_wakeup_epoch_seconds: u64) -> (result: Self)
        ensures
            result == (SleepPlan {
                next_wakeup_epoch_seconds: Some(next_wakeup_epoch_seconds),
                deep_sleep_seconds: None,
            }),
    {
        SleepPlan { next_wakeup_epoch_seconds: Some(next_wakeup_epoch_seconds), deep_sleep_seconds: None }
    }

    pub fn sleep_for(deep_sleep_seconds: u32) -> (result: Self)
        ensures
            result == (SleepPlan {
                next_wakeup_epoch_seconds: None,
                deep_sleep_seconds: Some(deep_sleep_seconds),
            }),
    {
        SleepPlan { next_wakeup_epoch_seconds: None, deep_sleep_seconds: Some(deep_sleep_seconds) }
    }
}

/// Why the chip left deep sleep, as the platform reports it.
#[derive(Clone, Copy, Debug, PartialEq, Eq, Structural)]
pub enum WakeProbe {
    Timer,
    Button,
    Ulp,
    Unknown,
    Other(u32),
}

impl WakeProbe {
    pub fn label(self) -> (result: &'static str)
        ensures
            result@ == match self {
                WakeProbe::Timer => "timer"@,
                WakeProbe::Button => "button"@,
                WakeProbe::Ulp => "ulp"@,
                WakeProbe::Unknown => "unknown"@,
                WakeProbe::Other(_) => "other"@,
            },
    {
        match self {
            WakeProbe::Timer => "timer",
            WakeProbe::Button => "button",
            WakeProbe::Ulp => "ulp",
            WakeProbe::Unknown => "unknown",
            WakeProbe::Other(_) => "other",
        }
    }
}

} // verus!
