use epaper_album::app::cycle::{
    run_device_cycle, DeviceCycleInput, DeviceDisplay, DeviceCycleOutcome, DisplayCause,
    DisplayRefreshRequest, ErrorRefreshRequest, SpriteSet, SyncAction, SyncCause, SyncErrorReport, SyncRequest,
    SyncResult,
};
use epaper_album::app::RunTrigger;
use epaper_album::scripted::{ScriptedDisplay, ScriptedSync};
use epaper_album::device_display::{MemoryResourceReader, PackedFrameDisplay};
use epaper_album::epd::RecordingBus;
use epaper_album::server::images::{encode_rgb_bmp, DISPLAY_PIXELS};
use epaper_album::config::Config;
use epaper_album::model::{LocalDate, Plan};
use epaper_album::power::BatteryStatus;
use epaper_album::state::{PersistentDeviceState, PersistentSyncState, WakeReason};
use std::fmt;

#[derive(Debug, Clone, Eq, PartialEq)]
struct FakeError(&'static str);

impl fmt::Display for FakeError {
    fn fmt(&self, formatter: &mut fmt::Formatter<'_>) -> fmt::Result {
        formatter.write_str(self.0)
    }
}

impl From<&'static str> for FakeError {
    fn from(text: &'static str) -> Self {
        FakeError(text)
    }
}

type FakeSync = ScriptedSync<SyncRequest, SyncResult, FakeError>;

type FakeDisplay = ScriptedDisplay<DisplayRefreshRequest, FakeError>;

fn date(value: &str) -> LocalDate {
    LocalDate::parse(value).unwrap()
}

fn config() -> Config {
    Config {
        wifi_ssid: "wifi".to_string(),
        wifi_password: "password".to_string(),
        base_url: "https://example.com".to_string(),
        secret_key: "secret".to_string(),
    }
}

fn plan(image: &str) -> Plan {
    Plan::fixed(date("2026-06-08"), "caption", image)
}

fn input(plans: Option<Vec<Plan>>) -> DeviceCycleInput {
    DeviceCycleInput {
        config: Some(config()),
        plans,
        persistent_state: PersistentDeviceState::default(),
        persistent_state_loaded: false,
        sync_state: PersistentSyncState::default(),
        trigger: RunTrigger::Wake(WakeReason::Timer),
        now_epoch_seconds: 100,
        date: date("2026-06-08"),
        battery: BatteryStatus::unknown(),
    }
}

#[test]
fn runner_tests_sync_updates_plans_and_refreshes_display() {
    let remote_plans = vec![plan("a")];
    let mut sync = FakeSync::answering(Ok(SyncResult {
        plans: remote_plans.clone(),
        sprites: SpriteSet::default(),
    }));
    let mut display = FakeDisplay {
        images: vec!["a".to_string()],
        ..FakeDisplay::default()
    };

    let result = run_device_cycle(input(None), &mut sync, &mut display);

    assert_eq!(sync.requests.len(), 1);
    assert_eq!(result.sync_decision.action, SyncAction::Fetch);
    assert_eq!(result.sync_decision.cause, SyncCause::Daily);
    assert_eq!(display.requests.len(), 1);
    assert_eq!(display.requests[0].plan.image, "a");
    assert!(result.sync_succeeded);
    assert!(result.refresh_succeeded);
    assert_eq!(result.persistent_state.image.as_deref(), Some("a"));
}

#[test]
fn runner_tests_low_battery_skips_sync_but_refreshes_current_state() {
    let plans = vec![plan("a")];
    let mut input = input(Some(plans));
    input.persistent_state = PersistentDeviceState::from_display(input.date, &plan("a"));
    input.battery.low_battery = true;
    let mut sync = FakeSync::default();
    let mut display = FakeDisplay {
        images: vec!["a".to_string()],
        ..FakeDisplay::default()
    };

    let result = run_device_cycle(input, &mut sync, &mut display);

    assert!(sync.requests.is_empty());
    assert_eq!(result.sync_decision.action, SyncAction::Skip);
    assert_eq!(result.sync_decision.cause, SyncCause::LowBattery);
    assert!(display.requests.is_empty());
    assert_eq!(display.error_requests.len(), 1);
    assert_eq!(display.error_requests[0].title, "LOW BATTERY");
    assert_eq!(result.outcome, DeviceCycleOutcome::LowBatterySkipSync);
    assert_eq!(result.persistent_state.image, None);
}

#[test]
fn runner_tests_low_battery_refreshes_error_page_when_photo_state_matches() {
    let plans = vec![plan("a")];
    let mut input = input(Some(plans));
    input.battery.low_battery = true;
    input.persistent_state = PersistentDeviceState::from_display(input.date, &plan("a"));
    let mut sync = FakeSync::default();
    let mut display = FakeDisplay {
        images: vec!["a".to_string()],
        ..FakeDisplay::default()
    };

    let result = run_device_cycle(input, &mut sync, &mut display);

    assert!(sync.requests.is_empty());
    assert_eq!(result.sync_decision.action, SyncAction::Skip);
    assert_eq!(result.sync_decision.cause, SyncCause::LowBattery);
    assert!(display.requests.is_empty());
    assert_eq!(display.error_requests.len(), 1);
    assert_eq!(display.error_requests[0].title, "LOW BATTERY");
    assert_eq!(result.outcome, DeviceCycleOutcome::LowBatterySkipSync);
    assert!(result.display_available);
}

#[test]
fn runner_tests_keep_decision_marks_display_available_when_state_was_loaded() {
    let plans = vec![plan("a")];
    let mut input = input(Some(plans));
    input.persistent_state_loaded = true;
    input.sync_state.date = Some(input.date);
    input.persistent_state = PersistentDeviceState::from_display(input.date, &plan("a"));
    let mut sync = FakeSync::default();
    let mut display = FakeDisplay {
        images: vec!["a".to_string()],
        ..FakeDisplay::default()
    };

    let result = run_device_cycle(input, &mut sync, &mut display);

    assert!(sync.requests.is_empty());
    assert!(display.requests.is_empty());
    assert!(result.display_available);
}

#[test]
fn runner_tests_charging_low_battery_status_still_syncs() {
    let mut input = input(Some(vec![plan("a")]));
    input.battery =
        epaper_album::power::BatteryStatus::new(0, Some(0), epaper_album::power::ChargeState::Charging, true);
    let mut sync = FakeSync::answering(Ok(SyncResult {
        plans: vec![plan("a")],
        sprites: SpriteSet::default(),
    }));
    let mut display = FakeDisplay {
        images: vec!["a".to_string()],
        ..FakeDisplay::default()
    };

    let result = run_device_cycle(input, &mut sync, &mut display);

    assert_eq!(sync.requests.len(), 1);
    assert_eq!(result.sync_decision.action, SyncAction::Fetch);
    assert_eq!(result.sync_decision.cause, SyncCause::External);
    assert!(result.sync_attempted);
    assert!(result.sync_succeeded);
    assert_ne!(result.outcome, DeviceCycleOutcome::LowBatterySkipSync);
}

#[test]
fn runner_tests_charging_keeps_screen_when_photo_is_unchanged_after_sync() {
    let mut input = input(Some(vec![plan("a")]));
    input.persistent_state_loaded = true;
    input.persistent_state = PersistentDeviceState::from_display(input.date, &plan("a"));
    input.battery =
        epaper_album::power::BatteryStatus::new(0, Some(100), epaper_album::power::ChargeState::Full, false);
    let mut sync = FakeSync::answering(Ok(SyncResult {
        plans: vec![plan("a")],
        sprites: SpriteSet::default(),
    }));
    let mut display = FakeDisplay {
        images: vec!["a".to_string()],
        ..FakeDisplay::default()
    };

    let result = run_device_cycle(input, &mut sync, &mut display);

    assert_eq!(sync.requests.len(), 1);
    assert_eq!(result.sync_decision.action, SyncAction::Fetch);
    assert_eq!(result.sync_decision.cause, SyncCause::External);
    assert!(display.requests.is_empty());
    assert!(display.error_requests.is_empty());
    assert_eq!(result.display_decision.cause, DisplayCause::Same);
}

#[test]
fn runner_tests_sync_failure_without_displayable_cache_refreshes_error_page() {
    let mut sync = FakeSync::answering(Err(FakeError("network down")));
    let mut display = FakeDisplay::default();

    let result = run_device_cycle(input(Some(vec![plan("a")])), &mut sync, &mut display);

    assert_eq!(sync.requests.len(), 1);
    assert!(display.requests.is_empty());
    assert_eq!(display.error_requests.len(), 1);
    assert_eq!(display.error_requests[0].title, "SYNC ERROR");
    assert_eq!(display.error_requests[0].detail, "network down");
    assert_eq!(
        result.sync_error_report,
        Some(SyncErrorReport::new(
            "sync.error",
            "sync",
            None,
            "CANNOT UPDATE SERVER DATA",
            "network down"
        ))
    );
    assert_eq!(result.outcome, DeviceCycleOutcome::SyncFailed);
}

#[test]
fn runner_tests_sync_failure_refreshes_error_page_even_when_photo_is_usable() {
    let mut input = input(Some(vec![plan("a")]));
    input.persistent_state_loaded = true;
    input.persistent_state = PersistentDeviceState::from_display(input.date, &plan("a"));
    input.sync_state.date = Some(date("2026-06-07"));
    let mut sync = FakeSync::answering(Err(FakeError("network down")));
    let mut display = FakeDisplay {
        images: vec!["a".to_string()],
        ..FakeDisplay::default()
    };

    let result = run_device_cycle(input, &mut sync, &mut display);

    assert_eq!(sync.requests.len(), 1);
    assert!(display.requests.is_empty());
    assert_eq!(display.error_requests.len(), 1);
    assert_eq!(display.error_requests[0].title, "SYNC ERROR");
    assert_eq!(display.error_requests[0].detail, "network down");
    assert_eq!(result.display_decision.cause, DisplayCause::Sync);
    assert_eq!(result.persistent_state.image, None);
    assert_eq!(result.outcome, DeviceCycleOutcome::SyncFailed);
}

#[test]
fn runner_tests_missing_today_plan_keeps_latest_past_plan_without_sync_error() {
    let plans = vec![Plan::fixed(date("2026-06-16"), "past", "a")];
    let mut input = input(Some(plans.clone()));
    input.date = date("2026-06-18");
    input.sync_state.date = Some(date("2026-06-18"));
    let mut sync = FakeSync::default();
    let mut display = FakeDisplay {
        images: vec!["a".to_string()],
        ..FakeDisplay::default()
    };

    let result = run_device_cycle(input, &mut sync, &mut display);

    assert!(sync.requests.is_empty());
    assert_eq!(display.requests.len(), 1);
    assert!(display.error_requests.is_empty());
    assert_eq!(display.requests[0].date, date("2026-06-18"));
    assert_eq!(display.requests[0].plan.image, "a");
    assert_eq!(result.display_decision.cause, DisplayCause::First);
    assert_ne!(result.outcome, DeviceCycleOutcome::SyncFailed);
}

#[test]
fn runner_tests_sync_success_keeps_screen_when_photo_is_unchanged() {
    let mut input = input(Some(vec![plan("a")]));
    input.persistent_state_loaded = true;
    input.persistent_state = PersistentDeviceState::from_display(input.date, &plan("a"));
    input.sync_state.date = Some(date("2026-06-07"));
    let mut sync = FakeSync::answering(Ok(SyncResult {
        plans: vec![plan("a")],
        sprites: SpriteSet::default(),
    }));
    let mut display = FakeDisplay {
        images: vec!["a".to_string()],
        ..FakeDisplay::default()
    };

    let result = run_device_cycle(input, &mut sync, &mut display);

    assert_eq!(sync.requests.len(), 1);
    assert!(result.sync_succeeded);
    assert!(display.requests.is_empty());
    assert!(display.error_requests.is_empty());
    assert_eq!(result.display_decision.cause, DisplayCause::Same);
    assert_eq!(result.outcome, DeviceCycleOutcome::SyncRequested);
}

#[test]
fn runner_tests_battery_skips_sync_when_plan_already_synced_today() {
    let mut input = input(Some(vec![plan("a")]));
    input.sync_state.date = Some(date("2026-06-08"));
    input.persistent_state = PersistentDeviceState::from_display(date("2026-06-08"), &plan("a"));
    let mut sync = FakeSync::default();
    let mut display = FakeDisplay {
        images: vec!["a".to_string()],
        ..FakeDisplay::default()
    };

    let result = run_device_cycle(input, &mut sync, &mut display);

    assert!(sync.requests.is_empty());
    assert_eq!(result.sync_decision.action, SyncAction::Skip);
    assert_eq!(result.sync_decision.cause, SyncCause::Done);
    assert!(!result.sync_attempted);
}

#[test]
fn runner_tests_battery_requests_sync_when_plan_not_synced_today() {
    let mut input = input(Some(vec![plan("a")]));
    input.sync_state.date = Some(date("2026-06-07"));
    let mut sync = FakeSync::answering(Ok(SyncResult {
        plans: vec![plan("a")],
        sprites: SpriteSet::default(),
    }));
    let mut display = FakeDisplay {
        images: vec!["a".to_string()],
        ..FakeDisplay::default()
    };

    let result = run_device_cycle(input, &mut sync, &mut display);

    assert_eq!(sync.requests.len(), 1);
    assert_eq!(result.sync_decision.action, SyncAction::Fetch);
    assert_eq!(result.sync_decision.cause, SyncCause::Daily);
    assert!(result.sync_attempted);
    assert!(result.sync_succeeded);
    assert_eq!(result.sync_state.date, Some(date("2026-06-08")));
}

#[test]
fn runner_tests_external_power_syncs_but_keeps_screen_when_display_is_unchanged() {
    let plans = vec![plan("a")];
    let mut input = input(Some(plans.clone()));
    input.persistent_state_loaded = true;
    input.persistent_state = PersistentDeviceState::from_display(input.date, &plans[0]);
    input.battery =
        epaper_album::power::BatteryStatus::new(0, Some(100), epaper_album::power::ChargeState::Full, false);
    let mut sync = FakeSync::answering(Ok(SyncResult {
        plans,
        sprites: SpriteSet::default(),
    }));
    let mut display = FakeDisplay {
        images: vec!["a".to_string()],
        ..FakeDisplay::default()
    };

    let result = run_device_cycle(input, &mut sync, &mut display);

    assert_eq!(result.sync_decision.action, SyncAction::Fetch);
    assert_eq!(result.sync_decision.cause, SyncCause::External);
    assert!(result.sync_attempted);
    assert!(result.sync_succeeded);
    assert!(display.requests.is_empty());
    assert_eq!(result.display_decision.cause, DisplayCause::Same);
    assert_eq!(result.outcome, DeviceCycleOutcome::SyncRequested);
    assert!(result.display_available);
}

#[test]
fn cycle_sync_updates_plans_and_refreshes_display() {
    let remote_plans = vec![plan("a")];
    let mut sync = FakeSync::answering(Ok(SyncResult {
        plans: remote_plans.clone(),
        sprites: SpriteSet::default(),
    }));
    let mut display = FakeDisplay {
        images: vec!["a".to_string()],
        ..FakeDisplay::default()
    };

    let result = run_device_cycle(input(None), &mut sync, &mut display);

    assert_eq!(sync.requests.len(), 1);
    assert_eq!(result.sync_decision.action, SyncAction::Fetch);
    assert_eq!(result.sync_decision.cause, SyncCause::Daily);
    assert_eq!(display.requests.len(), 1);
    assert_eq!(display.requests[0].plan.image, "a");
    assert!(result.sync_succeeded);
    assert!(result.refresh_succeeded);
    assert_eq!(result.persistent_state.image.as_deref(), Some("a"));
}

#[test]
fn cycle_low_battery_skips_sync_but_refreshes_current_state() {
    let plans = vec![plan("a")];
    let mut input = input(Some(plans));
    input.persistent_state = PersistentDeviceState::from_display(input.date, &plan("a"));
    input.battery.low_battery = true;
    let mut sync = FakeSync::default();
    let mut display = FakeDisplay {
        images: vec!["a".to_string()],
        ..FakeDisplay::default()
    };

    let result = run_device_cycle(input, &mut sync, &mut display);

    assert!(sync.requests.is_empty());
    assert_eq!(result.sync_decision.action, SyncAction::Skip);
    assert_eq!(result.sync_decision.cause, SyncCause::LowBattery);
    assert!(display.requests.is_empty());
    assert_eq!(display.error_requests.len(), 1);
    assert_eq!(display.error_requests[0].title, "LOW BATTERY");
    assert_eq!(result.outcome, DeviceCycleOutcome::LowBatterySkipSync);
    assert_eq!(result.persistent_state.image, None);
}

#[test]
fn cycle_low_battery_refreshes_error_page_when_photo_state_matches() {
    let plans = vec![plan("a")];
    let mut input = input(Some(plans));
    input.battery.low_battery = true;
    input.persistent_state = PersistentDeviceState::from_display(input.date, &plan("a"));
    let mut sync = FakeSync::default();
    let mut display = FakeDisplay {
        images: vec!["a".to_string()],
        ..FakeDisplay::default()
    };

    let result = run_device_cycle(input, &mut sync, &mut display);

    assert!(sync.requests.is_empty());
    assert_eq!(result.sync_decision.action, SyncAction::Skip);
    assert_eq!(result.sync_decision.cause, SyncCause::LowBattery);
    assert!(display.requests.is_empty());
    assert_eq!(display.error_requests.len(), 1);
    assert_eq!(display.error_requests[0].title, "LOW BATTERY");
    assert_eq!(result.outcome, DeviceCycleOutcome::LowBatterySkipSync);
    assert!(result.display_available);
}

#[test]
fn cycle_keep_decision_marks_display_available_when_state_was_loaded() {
    let plans = vec![plan("a")];
    let mut input = input(Some(plans));
    input.persistent_state_loaded = true;
    input.sync_state.date = Some(input.date);
    input.persistent_state = PersistentDeviceState::from_display(input.date, &plan("a"));
    let mut sync = FakeSync::default();
    let mut display = FakeDisplay {
        images: vec!["a".to_string()],
        ..FakeDisplay::default()
    };

    let result = run_device_cycle(input, &mut sync, &mut display);

    assert!(sync.requests.is_empty());
    assert!(display.requests.is_empty());
    assert!(result.display_available);
}

#[test]
fn cycle_charging_low_battery_status_still_syncs() {
    let mut input = input(Some(vec![plan("a")]));
    input.battery = BatteryStatus::new(0, Some(0), epaper_album::power::ChargeState::Charging, true);
    let mut sync = FakeSync::answering(Ok(SyncResult {
        plans: vec![plan("a")],
        sprites: SpriteSet::default(),
    }));
    let mut display = FakeDisplay {
        images: vec!["a".to_string()],
        ..FakeDisplay::default()
    };

    let result = run_device_cycle(input, &mut sync, &mut display);

    assert_eq!(sync.requests.len(), 1);
    assert_eq!(result.sync_decision.action, SyncAction::Fetch);
    assert_eq!(result.sync_decision.cause, SyncCause::External);
    assert!(result.sync_attempted);
    assert!(result.sync_succeeded);
    assert_ne!(result.outcome, DeviceCycleOutcome::LowBatterySkipSync);
}

#[test]
fn cycle_charging_keeps_screen_when_photo_is_unchanged_after_sync() {
    let mut input = input(Some(vec![plan("a")]));
    input.persistent_state_loaded = true;
    input.persistent_state = PersistentDeviceState::from_display(input.date, &plan("a"));
    input.battery = BatteryStatus::new(0, Some(100), epaper_album::power::ChargeState::Full, false);
    let mut sync = FakeSync::answering(Ok(SyncResult {
        plans: vec![plan("a")],
        sprites: SpriteSet::default(),
    }));
    let mut display = FakeDisplay {
        images: vec!["a".to_string()],
        ..FakeDisplay::default()
    };

    let result = run_device_cycle(input, &mut sync, &mut display);

    assert_eq!(sync.requests.len(), 1);
    assert_eq!(result.sync_decision.action, SyncAction::Fetch);
    assert_eq!(result.sync_decision.cause, SyncCause::External);
    assert!(display.requests.is_empty());
    assert!(display.error_requests.is_empty());
    assert_eq!(result.display_decision.cause, DisplayCause::Same);
}

#[test]
fn cycle_sync_failure_without_displayable_cache_refreshes_error_page() {
    let mut sync = FakeSync::answering(Err(FakeError("network down")));
    let mut display = FakeDisplay::default();

    let result = run_device_cycle(input(Some(vec![plan("a")])), &mut sync, &mut display);

    assert_eq!(sync.requests.len(), 1);
    assert!(display.requests.is_empty());
    assert_eq!(display.error_requests.len(), 1);
    assert_eq!(display.error_requests[0].title, "SYNC ERROR");
    assert_eq!(display.error_requests[0].detail, "network down");
    assert_eq!(
        result.sync_error_report,
        Some(SyncErrorReport::new(
            "sync.error",
            "sync",
            None,
            "CANNOT UPDATE SERVER DATA",
            "network down"
        ))
    );
    assert_eq!(result.outcome, DeviceCycleOutcome::SyncFailed);
}

#[test]
fn cycle_sync_failure_refreshes_error_page_even_when_photo_is_usable() {
    let mut input = input(Some(vec![plan("a")]));
    input.persistent_state_loaded = true;
    input.persistent_state = PersistentDeviceState::from_display(input.date, &plan("a"));
    input.sync_state.date = Some(date("2026-06-07"));
    let mut sync = FakeSync::answering(Err(FakeError("network down")));
    let mut display = FakeDisplay {
        images: vec!["a".to_string()],
        ..FakeDisplay::default()
    };

    let result = run_device_cycle(input, &mut sync, &mut display);

    assert_eq!(sync.requests.len(), 1);
    assert!(display.requests.is_empty());
    assert_eq!(display.error_requests.len(), 1);
    assert_eq!(display.error_requests[0].title, "SYNC ERROR");
    assert_eq!(display.error_requests[0].detail, "network down");
    assert_eq!(result.display_decision.cause, DisplayCause::Sync);
    assert_eq!(result.persistent_state.image, None);
    assert_eq!(result.outcome, DeviceCycleOutcome::SyncFailed);
}

#[test]
fn cycle_missing_today_plan_keeps_latest_past_plan_without_sync_error() {
    let plans = vec![Plan {
        date: date("2026-06-16"),
        caption: "past".to_string(),
        image: "a".to_string(),
    }];
    let mut input = input(Some(plans.clone()));
    input.date = date("2026-06-18");
    input.sync_state.date = Some(date("2026-06-18"));
    let mut sync = FakeSync::default();
    let mut display = FakeDisplay {
        images: vec!["a".to_string()],
        ..FakeDisplay::default()
    };

    let result = run_device_cycle(input, &mut sync, &mut display);

    assert!(sync.requests.is_empty());
    assert_eq!(display.requests.len(), 1);
    assert!(display.error_requests.is_empty());
    assert_eq!(display.requests[0].date, date("2026-06-18"));
    assert_eq!(display.requests[0].plan.image, "a");
    assert_eq!(result.display_decision.cause, DisplayCause::First);
    assert_ne!(result.outcome, DeviceCycleOutcome::SyncFailed);
}

#[test]
fn cycle_sync_success_keeps_screen_when_photo_is_unchanged() {
    let mut input = input(Some(vec![plan("a")]));
    input.persistent_state_loaded = true;
    input.persistent_state = PersistentDeviceState::from_display(input.date, &plan("a"));
    input.sync_state.date = Some(date("2026-06-07"));
    let mut sync = FakeSync::answering(Ok(SyncResult {
        plans: vec![plan("a")],
        sprites: SpriteSet::default(),
    }));
    let mut display = FakeDisplay {
        images: vec!["a".to_string()],
        ..FakeDisplay::default()
    };

    let result = run_device_cycle(input, &mut sync, &mut display);

    assert_eq!(sync.requests.len(), 1);
    assert!(result.sync_succeeded);
    assert!(display.requests.is_empty());
    assert!(display.error_requests.is_empty());
    assert_eq!(result.display_decision.cause, DisplayCause::Same);
    assert_eq!(result.outcome, DeviceCycleOutcome::SyncRequested);
}

#[test]
fn cycle_battery_skips_sync_when_plan_already_synced_today() {
    let mut input = input(Some(vec![plan("a")]));
    input.sync_state.date = Some(date("2026-06-08"));
    input.persistent_state =
        PersistentDeviceState::from_display(date("2026-06-08"), &plan("a"));
    let mut sync = FakeSync::default();
    let mut display = FakeDisplay {
        images: vec!["a".to_string()],
        ..FakeDisplay::default()
    };

    let result = run_device_cycle(input, &mut sync, &mut display);

    assert!(sync.requests.is_empty());
    assert_eq!(result.sync_decision.action, SyncAction::Skip);
    assert_eq!(result.sync_decision.cause, SyncCause::Done);
    assert!(!result.sync_attempted);
}

#[test]
fn cycle_battery_requests_sync_when_plan_not_synced_today() {
    let mut input = input(Some(vec![plan("a")]));
    input.sync_state.date = Some(date("2026-06-07"));
    let mut sync = FakeSync::answering(Ok(SyncResult {
        plans: vec![plan("a")],
        sprites: SpriteSet::default(),
    }));
    let mut display = FakeDisplay {
        images: vec!["a".to_string()],
        ..FakeDisplay::default()
    };

    let result = run_device_cycle(input, &mut sync, &mut display);

    assert_eq!(sync.requests.len(), 1);
    assert_eq!(result.sync_decision.action, SyncAction::Fetch);
    assert_eq!(result.sync_decision.cause, SyncCause::Daily);
    assert!(result.sync_attempted);
    assert!(result.sync_succeeded);
    assert_eq!(result.sync_state.date, Some(date("2026-06-08")));
}

#[test]
fn cycle_external_power_syncs_but_keeps_screen_when_display_is_unchanged() {
    let plans = vec![plan("a")];
    let mut input = input(Some(plans.clone()));
    input.persistent_state_loaded = true;
    input.persistent_state = PersistentDeviceState::from_display(input.date, &plans[0]);
    input.battery = BatteryStatus::new(0, Some(100), epaper_album::power::ChargeState::Full, false);
    let mut sync = FakeSync::answering(Ok(SyncResult {
        plans,
        sprites: SpriteSet::default(),
    }));
    let mut display = FakeDisplay {
        images: vec!["a".to_string()],
        ..FakeDisplay::default()
    };

    let result = run_device_cycle(input, &mut sync, &mut display);

    assert_eq!(result.sync_decision.action, SyncAction::Fetch);
    assert_eq!(result.sync_decision.cause, SyncCause::External);
    assert!(result.sync_attempted);
    assert!(result.sync_succeeded);
    assert!(display.requests.is_empty());
    assert_eq!(result.display_decision.cause, DisplayCause::Same);
    assert_eq!(result.outcome, DeviceCycleOutcome::SyncRequested);
    assert!(result.display_available);
}

#[test]
fn synced_sprites_reach_the_display() {
    let mut sync = FakeSync::answering(Ok(SyncResult {
        plans: vec![plan("a")],
        sprites: SpriteSet {
            caption: Some("caption-sprite".to_string()),
            date: Some("date-sprite".to_string()),
        },
    }));
    let mut display = FakeDisplay {
        images: vec!["a".to_string()],
        ..FakeDisplay::default()
    };

    let result = run_device_cycle(input(None), &mut sync, &mut display);

    assert!(result.sync_succeeded);
    assert_eq!(display.requests.len(), 1);
    assert_eq!(display.requests[0].sprites.caption.as_deref(), Some("caption-sprite"));
    assert_eq!(display.requests[0].sprites.date.as_deref(), Some("date-sprite"));
}

#[test]
fn scripted_display_holds_only_its_images() {
    let display = FakeDisplay {
        images: vec!["a".to_string(), "b".to_string()],
        ..FakeDisplay::default()
    };
    assert!(display.has_image("a"));
    assert!(display.has_image("b"));
    assert!(!display.has_image("c"));
    assert!(!FakeDisplay::default().has_image("a"));
}

#[test]
fn packed_frame_display_drives_a_cycle() {
    let white = encode_rgb_bmp(&vec![255u8; DISPLAY_PIXELS * 3]);
    let mut reader = MemoryResourceReader::new();
    reader.photos.push(("a".to_string(), white));
    let mut display = PackedFrameDisplay::new(reader, RecordingBus::new());
    let mut sync = FakeSync::answering(Ok(SyncResult {
        plans: vec![plan("a")],
        sprites: SpriteSet::default(),
    }));

    let result = run_device_cycle(input(None), &mut sync, &mut display);

    assert!(result.sync_succeeded);
    assert!(result.refresh_attempted);
    assert!(result.refresh_succeeded);
    assert_eq!(result.persistent_state.image.as_deref(), Some("a"));
    let (_reader, bus) = display.into_parts();
    assert!(!bus.events.is_empty());
}
