use epaper_album::app::{
    generate_display_decision, generate_display_decision_from_snapshot, run_once, DisplayDecision,
    NoUsablePhotoReason, RunInput, RunOutcome, RunTrigger,
};
use epaper_album::model::{CachedResource, DisplayState, LocalDate, PlanItem, PlanSnapshot, ResourceIndex};
use epaper_album::power::BatteryStatus;
use epaper_album::state::{DeviceRecord, RefreshReason, WakeReason};

fn input(trigger: RunTrigger) -> RunInput {
    RunInput {
        trigger,
        now_epoch_seconds: 1,
        daily_sync_due: false,
        display_refresh_due: false,
        battery: BatteryStatus::unknown(),
        persistent_state: DeviceRecord::default(),
    }
}

fn date(value: &str) -> LocalDate {
    LocalDate::parse(value).unwrap()
}

fn snapshot(images: &[&str]) -> PlanSnapshot {
    PlanSnapshot {
        content_hash: "hash-v1".to_string(),
        plans: vec![PlanItem {
            id: 7,
            start: date("2026-06-08"),
            end: date("2026-06-08"),
            caption: "caption".to_string(),
            images: images.iter().map(|image| image.to_string()).collect(),
        }],
    }
}

fn index(images: &[&str]) -> ResourceIndex {
    ResourceIndex {
        resources: images
            .iter()
            .map(|image| CachedResource {
                sha256: image.to_string(),
                byte_size: 128,
                last_used_at_unix_secs: 1,
            })
            .collect(),
    }
}

#[test]
fn manual_run_forces_sync_without_consuming_daily_sync() {
    let mut input = input(RunTrigger::Manual);
    input.daily_sync_due = true;

    let report = run_once(input);

    assert_eq!(report.outcome, RunOutcome::SyncRequested);
    assert!(report.force_sync);
    assert!(!report.daily_sync_consumed);
    assert_eq!(report.wake_reason, WakeReason::ManualButton);
    assert_eq!(
        report.persistent_state.last_wake_reason,
        Some(WakeReason::ManualButton)
    );
}

#[test]
fn timer_wake_consumes_due_daily_sync() {
    let mut input = input(RunTrigger::Wake(WakeReason::Timer));
    input.daily_sync_due = true;

    let report = run_once(input);

    assert_eq!(report.outcome, RunOutcome::SyncRequested);
    assert!(!report.force_sync);
    assert!(report.daily_sync_consumed);
}

#[test]
fn low_battery_skips_sync_without_consuming_daily_sync() {
    let mut input = input(RunTrigger::Wake(WakeReason::Timer));
    input.daily_sync_due = true;
    input.battery.low_battery = true;

    let report = run_once(input);

    assert_eq!(report.outcome, RunOutcome::LowBatterySkipSync);
    assert!(!report.daily_sync_consumed);
}

#[test]
fn app_display_decision_reports_missing_config() {
    let decision =
        generate_display_decision(None, &ResourceIndex::default(), date("2026-06-08"), 0, None);

    assert_eq!(decision, DisplayDecision::MissingConfig);
}

#[test]
fn app_display_decision_reports_no_usable_photo_when_resource_is_missing() {
    let snapshot = snapshot(&["a"]);

    let decision = generate_display_decision_from_snapshot(
        &snapshot,
        &ResourceIndex::default(),
        date("2026-06-08"),
        0,
        None,
    );

    assert_eq!(
        decision,
        DisplayDecision::NoUsablePhoto(NoUsablePhotoReason::ResourceNotCached)
    );
}

#[test]
fn display_decision_refreshes_first_usable_photo_from_rotation_slot() {
    let snapshot = snapshot(&["a", "b", "c"]);
    let index = index(&["c"]);

    let decision =
        generate_display_decision_from_snapshot(&snapshot, &index, date("2026-06-08"), 1, None);

    match decision {
        DisplayDecision::RefreshRequired {
            item,
            display_state,
            reason,
        } => {
            assert_eq!(item.image_sha256, "c");
            assert_eq!(item.image_index, 2);
            assert_eq!(display_state.image_sha256.as_deref(), Some("c"));
            assert_eq!(reason, RefreshReason::FirstBoot);
        }
        other => panic!("unexpected decision: {other:?}"),
    }
}

#[test]
fn app_display_decision_sleeps_when_previous_state_matches() {
    let snapshot = snapshot(&["a"]);
    let index = index(&["a"]);
    let previous_display = DisplayState {
        plan_id: Some(7),
        plan_content_hash: Some("older-hash".to_string()),
        date: Some(date("2026-06-08")),
        image_sha256: Some("a".to_string()),
        image_index: 0,
        caption: Some("caption".to_string()),
        refreshed_at_unix_secs: Some(100),
    };
    let mut previous_state = DeviceRecord::default();
    previous_state.set_current_display(&previous_display);

    let decision = generate_display_decision_from_snapshot(
        &snapshot,
        &index,
        date("2026-06-08"),
        0,
        Some(&previous_state),
    );

    match decision {
        DisplayDecision::SleepOnly { display_state } => {
            assert_eq!(display_state.image_sha256.as_deref(), Some("a"));
        }
        other => panic!("unexpected decision: {other:?}"),
    }
}
