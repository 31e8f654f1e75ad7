use epaper_album::app::{DisplayDecision, NoUsablePhotoReason, RunTrigger};
use epaper_album::config::Config;
use epaper_album::device_runtime::{
    run_device_cycle, DeviceCycleInput, DeviceCycleOutcome, DisplayRefreshRequest, SyncRequest, SyncResult,
};
use epaper_album::scripted::{ScriptedDisplay, ScriptedSync};
use epaper_album::model::{CachedResource, LocalDate, PlanItem, PlanSnapshot, ResourceIndex};
use epaper_album::power::BatteryStatus;
use epaper_album::state::{DeviceRecord, RefreshReason, WakeReason};
use std::fmt;

#[derive(Debug, Clone, Eq, PartialEq)]
struct FakeError(&'static str);

impl fmt::Display for FakeError {
    fn fmt(&self, formatter: &mut fmt::Formatter<'_>) -> fmt::Result {
        formatter.write_str(self.0)
    }
}

impl From<&'static str> for FakeError {
    fn from(text: &'static str) -> Self {
        FakeError(text)
    }
}

type FakeSync = ScriptedSync<SyncRequest, SyncResult, FakeError>;

type FakeDisplay = ScriptedDisplay<DisplayRefreshRequest, FakeError>;

fn date(value: &str) -> LocalDate {
    LocalDate::parse(value).unwrap()
}

fn config() -> Config {
    Config {
        wifi_ssid: "wifi".to_string(),
        wifi_password: "password".to_string(),
        base_url: "https://example.com".to_string(),
        secret_key: "secret".to_string(),
    }
}

fn snapshot(hash: &str, images: &[&str]) -> PlanSnapshot {
    PlanSnapshot {
        content_hash: hash.to_string(),
        plans: vec![PlanItem {
            id: 7,
            start: date("2026-06-08"),
            end: date("2026-06-08"),
            caption: "caption".to_string(),
            images: images.iter().map(|image| image.to_string()).collect(),
        }],
    }
}

fn resource(sha256: &str, byte_size: u64, last_used_at_unix_secs: u64) -> CachedResource {
    CachedResource {
        sha256: sha256.to_string(),
        byte_size,
        last_used_at_unix_secs,
    }
}

fn index(resources: &[CachedResource]) -> ResourceIndex {
    ResourceIndex {
        resources: resources.to_vec(),
    }
}

fn input(snapshot: Option<PlanSnapshot>, resource_index: ResourceIndex) -> DeviceCycleInput {
    DeviceCycleInput {
        config: Some(config()),
        snapshot,
        resource_index,
        persistent_state: DeviceRecord::default(),
        trigger: RunTrigger::Wake(WakeReason::Timer),
        now_epoch_seconds: 100,
        date: date("2026-06-08"),
        rotation_slot: 0,
        battery: BatteryStatus::unknown(),
        daily_sync_due: false,
    }
}

#[test]
fn sync_downloads_missing_image_and_refreshes_display() {
    let local_snapshot = snapshot("hash-local", &["a"]);
    let remote_snapshot = snapshot("hash-remote", &["a"]);
    let mut input = input(Some(local_snapshot), ResourceIndex::default());
    input.daily_sync_due = true;
    let mut sync = FakeSync::answering(Ok(SyncResult {
        snapshot: remote_snapshot.clone(),
        resources: vec![resource("a", 128, 0)],
    }));
    let mut display = FakeDisplay::default();

    let result = run_device_cycle(input, &mut sync, &mut display);

    assert_eq!(sync.requests.len(), 1);
    assert_eq!(sync.requests[0].missing_resources, vec!["a"]);
    assert_eq!(display.requests.len(), 1);
    assert_eq!(
        display.requests[0].display_state.image_sha256.as_deref(),
        Some("a")
    );
    assert!(result.sync_succeeded);
    assert!(result.daily_sync_consumed);
    assert!(result.refresh_succeeded);
    assert_eq!(
        result
            .persistent_state
            .current_display
            .image_sha256
            .as_deref(),
        Some("a")
    );
    assert_eq!(
        result.persistent_state.last_refresh_reason,
        Some(RefreshReason::FirstBoot)
    );
    assert_eq!(
        result.persistent_state.last_successful_sync_epoch_seconds,
        Some(100)
    );
    assert_eq!(result.persistent_state.cache.resource_count, 1);
    assert_eq!(result.persistent_state.cache.used_bytes, 128);
}

#[test]
fn low_battery_skips_sync_but_refreshes_from_cache() {
    let mut input = input(
        Some(snapshot("hash-v1", &["a"])),
        index(&[resource("a", 128, 1)]),
    );
    input.daily_sync_due = true;
    input.battery.low_battery = true;
    let mut sync = FakeSync::default();
    let mut display = FakeDisplay::default();

    let result = run_device_cycle(input, &mut sync, &mut display);

    assert!(sync.requests.is_empty());
    assert_eq!(display.requests.len(), 1);
    assert_eq!(result.outcome, DeviceCycleOutcome::LowBatterySkipSync);
    assert!(!result.daily_sync_consumed);
    assert!(result.refresh_succeeded);
}

#[test]
fn manual_force_sync_does_not_consume_daily_task() {
    let mut input = input(
        Some(snapshot("hash-v1", &["a"])),
        index(&[resource("a", 128, 1)]),
    );
    input.trigger = RunTrigger::Manual;
    input.daily_sync_due = true;
    let mut sync = FakeSync::answering(Ok(SyncResult {
        snapshot: snapshot("hash-v2", &["a"]),
        resources: Vec::new(),
    }));
    let mut display = FakeDisplay::default();

    let result = run_device_cycle(input, &mut sync, &mut display);

    assert_eq!(sync.requests.len(), 1);
    assert!(sync.requests[0].force);
    assert!(result.force_sync);
    assert!(!result.daily_sync_consumed);
    assert_eq!(
        result.persistent_state.last_wake_reason,
        Some(WakeReason::ManualButton)
    );
}

#[test]
fn sync_failure_uses_local_cache_for_display_decision() {
    let mut input = input(
        Some(snapshot("hash-v1", &["a"])),
        index(&[resource("a", 128, 1)]),
    );
    input.daily_sync_due = true;
    let mut sync = FakeSync::answering(Err(FakeError("network down")));
    let mut display = FakeDisplay::default();

    let result = run_device_cycle(input, &mut sync, &mut display);

    assert_eq!(sync.requests.len(), 1);
    assert_eq!(display.requests.len(), 1);
    assert_eq!(result.outcome, DeviceCycleOutcome::SyncFailed);
    assert_eq!(
        result.persistent_state.last_sync_error.as_deref(),
        Some("network down")
    );
    assert!(result.refresh_succeeded);
}

#[test]
fn no_available_photo_returns_no_usable_photo_decision() {
    let input = input(Some(snapshot("hash-v1", &["a"])), ResourceIndex::default());
    let mut sync = FakeSync::default();
    let mut display = FakeDisplay::default();

    let result = run_device_cycle(input, &mut sync, &mut display);

    assert_eq!(sync.requests.len(), 0);
    assert_eq!(display.requests.len(), 0);
    assert_eq!(
        result.display_decision,
        DisplayDecision::NoUsablePhoto(NoUsablePhotoReason::ResourceNotCached)
    );
    assert_eq!(
        result.outcome,
        DeviceCycleOutcome::NoUsablePhoto(NoUsablePhotoReason::ResourceNotCached)
    );
}

#[test]
fn received_resources_are_recorded_as_used_now() {
    let local_snapshot = snapshot("hash-local", &["a"]);
    let remote_snapshot = snapshot("hash-remote", &["a", "b"]);
    let mut input = input(Some(local_snapshot), index(&[resource("a", 128, 1)]));
    input.daily_sync_due = true;
    let mut sync = FakeSync::answering(Ok(SyncResult {
        snapshot: remote_snapshot.clone(),
        resources: vec![resource("b", 64, 0), resource("a", 256, 0)],
    }));
    let mut display = FakeDisplay::default();

    let result = run_device_cycle(input, &mut sync, &mut display);

    assert!(result.sync_succeeded);
    assert_eq!(result.snapshot, Some(remote_snapshot));
    let a = result.resource_index.resources.iter().find(|r| r.sha256 == "a").unwrap();
    let b = result.resource_index.resources.iter().find(|r| r.sha256 == "b").unwrap();
    assert_eq!(a.byte_size, 256);
    assert_eq!(b.byte_size, 64);
    assert_eq!(b.last_used_at_unix_secs, 100);
    assert_eq!(result.resource_index.resources.len(), 2);
}
