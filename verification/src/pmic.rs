use crate::power::{BatteryStatus, ChargeState};
use vstd::prelude::*;

verus! {

/// The identification register value of an AXP2101.
pub const AXP2101_CHIP_ID: u8 = 0x4A;

/// Register values read from the power-management chip at start-up.
#[derive(Clone, Copy, Debug, PartialEq, Eq, Structural)]
pub struct PmicProbe {
    pub chip_id: u8,
    pub status1: u8,
    pub status2: u8,
    pub dc_onoff: u8,
    pub ldo_onoff0: u8,
    pub battery: BatteryStatus,
}

/// The fields of the two status registers that the frame uses.
#[derive(Clone, Copy, Debug, PartialEq, Eq, Structural)]
pub struct PmicStatusSummary {
    pub battery_connected: bool,
    pub vbus_good: bool,
    pub battery_current_direction: u8,
    pub charge_step: u8,
}

pub fn chip_id_is_axp2101(probe: PmicProbe) -> (result: bool)
    ensures
        result == (probe.chip_id == AXP2101_CHIP_ID),
{
    probe.chip_id == AXP2101_CHIP_ID
}

pub open spec fn spec_status_summary(status1: u8, status2: u8) -> PmicStatusSummary {
    PmicStatusSummary {
        battery_connected: status1 & 0x08u8 != 0,
        vbus_good: status1 & 0x20u8 != 0,
        battery_current_direction: (status2 >> 5u8) & 0x03u8,
        charge_step: status2 & 0x07u8,
    }
}

/// Bit 3 of the first register: a battery is present; bit 5: the USB supply is good.
/// Bits 5 and 6 of the second register give the current direction, bits 0 to 2 the charge step.
pub fn status_summary(status1: u8, status2: u8) -> (result: PmicStatusSummary)
    ensures
        result == spec_status_summary(status1, status2),
{
    PmicStatusSummary {
        battery_connected: status1 & 0x08 != 0,
        vbus_good: status1 & 0x20 != 0,
        battery_current_direction: (status2 >> 5u8) & 0x03,
        charge_step: status2 & 0x07,
    }
}

pub open spec fn spec_charge_state_from_status(status1: u8, status2: u8) -> ChargeState {
    let summary = spec_status_summary(status1, status2);
    if summary.battery_current_direction == 1 && summary.battery_connected {
        ChargeState::Charging
    } else if summary.charge_step == 4 && summary.vbus_good && summary.battery_connected {
        ChargeState::Full
    } else if summary.battery_current_direction == 2 && summary.battery_connected {
        ChargeState::Discharging
    } else if summary.battery_current_direction == 0 && summary.vbus_good {
        ChargeState::Full
    } else if summary.vbus_good && !summary.battery_connected {
        ChargeState::Full
    } else {
        ChargeState::Unknown
    }
}

/// Charging when current flows into a present battery; full at charge step 4 on USB power,
/// or on USB power with no current or no battery; discharging when current flows out.
pub fn charge_state_from_status(status1: u8, status2: u8) -> (result: ChargeState)
    ensures
        result == spec_charge_state_from_status(status1, status2),
{
    let summary = status_summary(status1, status2);
    if summary.battery_current_direction == 1 && summary.battery_connected {
        ChargeState::Charging
    } else if summary.charge_step == 4 && summary.vbus_good && summary.battery_connected {
        ChargeState::Full
    } else if summary.battery_current_direction == 2 && summary.battery_connected {
        ChargeState::Discharging
    } else if summary.battery_current_direction == 0 && summary.vbus_good {
        ChargeState::Full
    } else if summary.vbus_good && !summary.battery_connected {
        ChargeState::Full
    } else {
        ChargeState::Unknown
    }
}

/// The battery reading that the status registers and the percentage register give.
pub fn battery_status_from_registers(status1: u8, status2: u8, percent_register: u8) -> (result: BatteryStatus)
    ensures
        result == (BatteryStatus {
            millivolts: 0,
            percent: if percent_register <= 100 { Some(percent_register) } else { None },
            charge_state: spec_charge_state_from_status(status1, status2),
            low_battery: false,
        }),
{
    let percent = if percent_register <= 100 { Some(percent_register) } else { None };
    BatteryStatus::new(0, percent, charge_state_from_status(status1, status2), false)
}

} // verus!
