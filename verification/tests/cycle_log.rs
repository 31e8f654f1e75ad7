use epaper_album::app::cycle::{
    DeviceCycleOutcome, DeviceCycleResult, DisplayAction, DisplayCause, DisplayDecision, DisplayTarget,
    SyncAction, SyncCause, SyncDecision, SyncErrorReport,
};
use epaper_album::cycle_log::{cycle_log_entries, LogField, LogValue};
use epaper_album::diagnostics::DiagnosticLevel;
use epaper_album::model::LocalDate;
use epaper_album::power::{BatteryStatus, ChargeState};
use epaper_album::state::{PersistentDeviceState, PersistentSyncState};

fn text(key: &str, value: &str) -> LogField {
    LogField { key: key.to_string(), value: LogValue::Text(value.to_string()) }
}

fn flag(key: &str, value: bool) -> LogField {
    LogField { key: key.to_string(), value: LogValue::Flag(value) }
}

fn cycle(sync_error: bool, charging: bool) -> DeviceCycleResult {
    let date = LocalDate::parse("2026-06-14").unwrap();
    DeviceCycleResult {
        plans: None,
        persistent_state: PersistentDeviceState::new(),
        sync_state: PersistentSyncState::default(),
        battery: BatteryStatus::new(
            3900,
            Some(70),
            if charging { ChargeState::Charging } else { ChargeState::Discharging },
            false,
        ),
        sync_decision: SyncDecision { action: SyncAction::Fetch, cause: SyncCause::Daily },
        display_decision: DisplayDecision {
            action: DisplayAction::Refresh(DisplayTarget::Photo {
                date,
                image: "sha".to_string(),
                caption: "Beach".to_string(),
            }),
            cause: DisplayCause::Date,
        },
        outcome: if sync_error { DeviceCycleOutcome::SyncFailed } else { DeviceCycleOutcome::SyncRequested },
        sync_attempted: true,
        sync_succeeded: !sync_error,
        sync_error: if sync_error { Some("wifi: timeout".to_string()) } else { None },
        sync_error_report: if sync_error {
            Some(SyncErrorReport::new("wifi.timeout", "wifi", Some("connect".to_string()), "NO WIFI", "timeout"))
        } else {
            None
        },
        refresh_attempted: true,
        refresh_succeeded: true,
        display_available: true,
    }
}

#[test]
fn a_successful_cycle_writes_four_entries() {
    let entries = cycle_log_entries(&cycle(false, false), 1_780_000_000, 3600);
    assert_eq!(entries.len(), 4);
    assert_eq!(entries[0].event, "cycle");
    assert_eq!(entries[0].data, vec![text("outcome", "SyncRequested")]);
    assert_eq!(
        entries[1].data,
        vec![text("action", "Fetch"), text("cause", "Daily"), flag("attempted", true), flag("succeeded", true)]
    );
    assert_eq!(
        entries[2].data,
        vec![
            text("action", "RefreshPhoto"),
            text("cause", "Date"),
            text("date", "2026-06-14"),
            text("image", "sha"),
            text("caption", "Beach"),
            flag("refresh_attempted", true),
            flag("refresh_succeeded", true),
        ]
    );
    assert_eq!(entries[3].event, "next");
    assert_eq!(entries[3].data[0], LogField { key: "at".to_string(), value: LogValue::Number(1_780_000_000) });
    assert_eq!(entries[3].data[2], text("mode", "deep-sleep"));
}

#[test]
fn a_failed_sync_adds_a_warning_with_its_report() {
    let entries = cycle_log_entries(&cycle(true, true), 10, 20);
    assert_eq!(entries.len(), 5);
    assert_eq!(entries[2].level, DiagnosticLevel::Warn);
    assert_eq!(entries[2].message, "sync failed");
    assert_eq!(
        entries[2].data,
        vec![
            text("error", "wifi: timeout"),
            text("code", "wifi.timeout"),
            text("category", "wifi"),
            text("message", "NO WIFI"),
            text("detail", "timeout"),
            text("stage", "connect"),
        ]
    );
    assert_eq!(entries[1].data.len(), 4 + 6);
    assert_eq!(entries[4].data[2], text("mode", "restart"));
}
