use epaper_album::app::cycle::{
    decide_display_with, decide_sync, DisplayAction, DisplayCause, DisplayTarget, RunContext, SyncAction, SyncCause,
    SyncErrorReport, WifiConnectError,
};
use epaper_album::power::PowerProfile;
use epaper_album::app::{run_once, RunInput, RunOutcome, RunTrigger};
use epaper_album::bmp::{exact_panel_color, BmpError};
use epaper_album::cache::{cleanup_candidates, missing_resources};
use epaper_album::config::{probe_config, probe_storage, usable_config, Config, ConfigProbe, ConfigRead, StorageProbe};
use epaper_album::device_display::DisplayReadError;
use epaper_album::diagnostics::{daily_log_path, date_text, days_between, log_file_expired, padded_decimal};
use epaper_album::display::{Color, DisplayError, DisplayRefreshMode, MockDisplay, ScreenBuffer};
use epaper_album::epd::{epd_color_code, pack_epd_pixels, EpdError};
use epaper_album::model::{CachedResource, LocalDate, Plan, PlanItem, PlanSnapshot, ResourceIndex};
use epaper_album::device::{next_run_wait, run_trigger_for_wake, NextRunWait};
use epaper_album::power::{BatteryStatus, ChargeState, WakeProbe};
use epaper_album::render::{draw_text_at, RenderError, RenderResource, TextStyle};
use epaper_album::state::{DeviceRecord, PersistentDeviceState, PersistentSyncState, WakeReason};
use epaper_album::text::{lowercase_equals, trim};

fn date(value: &str) -> LocalDate {
    LocalDate::parse(value).unwrap()
}

fn config() -> Config {
    Config {
        wifi_ssid: "home".to_string(),
        wifi_password: "pw".to_string(),
        base_url: "http://album.local".to_string(),
        secret_key: "secret".to_string(),
    }
}

fn resource(sha256: &str, byte_size: u64, last_used_at_unix_secs: u64) -> CachedResource {
    CachedResource { sha256: sha256.to_string(), byte_size, last_used_at_unix_secs }
}

#[test]
fn low_battery_on_battery_power_skips_sync() {
    let battery = BatteryStatus::new(3300, Some(5), ChargeState::Discharging, true);
    let decision = decide_sync(Some(&config()), &battery, &PersistentSyncState::default(), date("2026-06-14"));
    assert_eq!(decision.action, SyncAction::Skip);
    assert_eq!(decision.cause, SyncCause::LowBattery);
}

#[test]
fn battery_power_syncs_once_per_day() {
    let battery = BatteryStatus::new(3900, Some(80), ChargeState::Discharging, false);
    let today = date("2026-06-14");
    let first = decide_sync(Some(&config()), &battery, &PersistentSyncState { date: Some(date("2026-06-13")) }, today);
    assert_eq!(first.action, SyncAction::Fetch);
    assert_eq!(first.cause, SyncCause::Daily);
    let again = decide_sync(Some(&config()), &battery, &PersistentSyncState { date: Some(today) }, today);
    assert_eq!(again.action, SyncAction::Skip);
    assert_eq!(again.cause, SyncCause::Done);
}

#[test]
fn external_power_syncs_even_after_todays_sync() {
    let battery = BatteryStatus::new(4100, Some(90), ChargeState::Charging, true);
    let today = date("2026-06-14");
    let decision = decide_sync(Some(&config()), &battery, &PersistentSyncState { date: Some(today) }, today);
    assert_eq!(decision.action, SyncAction::Fetch);
    assert_eq!(decision.cause, SyncCause::External);
}

#[test]
fn missing_configuration_skips_sync() {
    let battery = BatteryStatus::new(3900, Some(80), ChargeState::Discharging, false);
    let mut incomplete = config();
    incomplete.secret_key = String::new();
    let decision = decide_sync(Some(&incomplete), &battery, &PersistentSyncState::default(), date("2026-06-14"));
    assert_eq!(decision.cause, SyncCause::MissingConfig);
    let decision = decide_sync(None, &battery, &PersistentSyncState::default(), date("2026-06-14"));
    assert_eq!(decision.cause, SyncCause::MissingConfig);
}

fn run_input(trigger: RunTrigger, daily_sync_due: bool, low_battery: bool) -> RunInput {
    RunInput {
        trigger,
        now_epoch_seconds: 1_780_000_000,
        daily_sync_due,
        display_refresh_due: true,
        battery: BatteryStatus::new(3500, Some(10), ChargeState::Discharging, low_battery),
        persistent_state: DeviceRecord::default(),
    }
}

#[test]
fn manual_run_syncs_unless_battery_is_low() {
    let report = run_once(run_input(RunTrigger::Manual, false, false));
    assert_eq!(report.outcome, RunOutcome::SyncRequested);
    assert!(report.force_sync);
    assert!(!report.daily_sync_consumed);
    assert_eq!(report.persistent_state.last_wake_reason, Some(WakeReason::ManualButton));

    let report = run_once(run_input(RunTrigger::Manual, true, true));
    assert_eq!(report.outcome, RunOutcome::LowBatterySkipSync);
    let report = run_once(run_input(RunTrigger::Wake(WakeReason::Timer), false, false));
    assert_eq!(report.outcome, RunOutcome::RefreshOnly);
}

#[test]
fn panel_codes_pack_left_pixel_high() {
    assert_eq!(epd_color_code(Color::Black), 0);
    assert_eq!(epd_color_code(Color::Green), 6);
    assert_eq!(pack_epd_pixels(Color::Red, Color::Blue), 0x35);
    assert_eq!(pack_epd_pixels(Color::White, Color::Yellow), 0x12);
}

#[test]
fn only_exact_inks_are_accepted() {
    assert_eq!(exact_panel_color(0, 0, 0), Some(Color::Black));
    assert_eq!(exact_panel_color(255, 255, 0), Some(Color::Yellow));
    assert_eq!(exact_panel_color(0, 255, 0), Some(Color::Green));
    assert_eq!(exact_panel_color(254, 255, 255), None);
}

#[test]
fn upsert_then_touch_keeps_the_image() {
    let mut index = ResourceIndex { resources: vec![resource("a", 10, 1)] };
    index.upsert(resource("b", 20, 2));
    assert!(index.contains("a"));
    assert!(index.contains("b"));
    index.upsert(resource("a", 30, 3));
    assert_eq!(index.resources.len(), 2);
    index.touch("b", 99);
    assert!(index.contains("b"));
    assert!(!index.contains("c"));
    let b = index.resources.iter().find(|item| item.sha256 == "b").unwrap();
    assert_eq!(b.last_used_at_unix_secs, 99);
}

#[test]
fn cleanup_never_picks_protected_images() {
    let index = ResourceIndex {
        resources: vec![resource("keep", 100, 1), resource("old", 100, 2), resource("newer", 100, 3)],
    };
    let protected = vec!["keep".to_string()];
    let candidates = cleanup_candidates(&index, &protected, 10, 500, 150);
    let names: Vec<&str> = candidates.iter().map(|candidate| candidate.sha256.as_str()).collect();
    assert_eq!(names, vec!["old", "newer"]);
    assert_eq!(candidates[0].free_bytes_after_delete, 110);
    assert_eq!(candidates[1].free_bytes_after_delete, 210);
}

#[test]
fn missing_images_follow_plan_order() {
    let snapshot = PlanSnapshot {
        content_hash: "h".to_string(),
        plans: vec![
            PlanItem {
                id: 1,
                start: date("2026-06-01"),
                end: date("2026-06-02"),
                caption: "one".to_string(),
                images: vec!["z".to_string(), "y".to_string()],
            },
            PlanItem {
                id: 2,
                start: date("2026-06-03"),
                end: date("2026-06-04"),
                caption: "two".to_string(),
                images: vec!["y".to_string(), "x".to_string()],
            },
        ],
    };
    let index = ResourceIndex { resources: vec![resource("x", 1, 1)] };
    assert_eq!(missing_resources(&snapshot, &index), vec!["z", "y"]);
}

#[test]
fn date_text_reads_back_as_the_same_date() {
    for text in ["2026-06-14", "0999-01-05", "2024-02-29"] {
        let parsed = date(text);
        assert_eq!(date_text(parsed), text);
        assert_eq!(LocalDate::parse(&date_text(parsed)).unwrap(), parsed);
    }
    assert_eq!(padded_decimal(7, 3), "007");
    assert_eq!(padded_decimal(12345, 2), "12345");
}

#[test]
fn daily_log_file_is_named_after_the_date() {
    assert_eq!(daily_log_path(date("2026-06-14")), "/sdcard/data/logs/2026-06-14.jsonl");
}

#[test]
fn logs_outside_the_retention_window_expire() {
    let today = date("2026-06-14");
    assert!(log_file_expired("2026-06-01.jsonl", today, 7));
    assert!(!log_file_expired("2026-06-10.jsonl", today, 7));
    assert!(!log_file_expired("not-a-log.txt", today, 7));
    assert!(log_file_expired("2026-06-07.jsonl", today, 7));
    assert!(!log_file_expired("2026-06-08.jsonl", today, 7));
    assert!(!log_file_expired("2026-06-20.jsonl", today, 7));
}

#[test]
fn days_between_counts_forward_only() {
    assert_eq!(days_between(date("2026-06-01"), date("2026-06-14")), Some(13));
    assert_eq!(days_between(date("2024-02-28"), date("2024-03-01")), Some(2));
    assert_eq!(days_between(date("2026-06-14"), date("2026-06-14")), Some(0));
    assert_eq!(days_between(date("2026-06-14"), date("2026-06-01")), None);
    assert_eq!(days_between(date("2000-01-01"), date("2020-01-01")), None);
}

#[test]
fn state_made_from_plan_matches_that_plan() {
    let plan = Plan::fixed(date("2026-06-14"), "Beach", "sha-beach");
    let state = PersistentDeviceState::from_plan(&plan, None);
    assert!(state.matches_plan(&plan));
    assert_eq!(state.to_plan(), Some(plan.clone()));
    let other = Plan::fixed(date("2026-06-14"), "Beach", "sha-other");
    assert!(!state.matches_plan(&other));
}

#[test]
fn error_texts_name_each_variant() {
    assert_eq!(BmpError::InvalidHeader.text(), "invalid-header");
    assert_eq!(BmpError::UnsupportedFormat.text(), "unsupported-format");
    assert_eq!(BmpError::UnsupportedColor.text(), "unsupported-color");
    assert_eq!(BmpError::UnexpectedEof.text(), "unexpected-eof");
    assert_eq!(EpdError::BusyTimeout.text(), "busy-timeout");
    assert_eq!(EpdError::Transport.text(), "transport");
    assert_eq!(DisplayReadError::MissingPhoto.text(), "missing-photo");
    assert_eq!(DisplayReadError::MountError.text(), "mount-error");
    assert_eq!(DisplayReadError::ReadError.text(), "read-error");
    assert_eq!(RenderError::InvalidPhotoSize.message(), "invalid-photo-size");
    assert_eq!(RenderError::InvalidFrameLength.message(), "invalid-frame-length");
    assert_eq!(RenderError::Bmp(BmpError::UnexpectedEof).message(), "bmp-unexpected-eof");
    assert_eq!(
        RenderError::ResourceBmp(RenderResource::Caption, BmpError::UnsupportedColor).message(),
        "caption-bmp-unsupported-color"
    );
    assert_eq!(RenderError::from(BmpError::InvalidHeader), RenderError::Bmp(BmpError::InvalidHeader));
}

#[test]
fn trim_and_case_insensitive_words() {
    assert_eq!(trim("  hello world \t"), "hello world");
    assert_eq!(trim("   "), "");
    assert!(lowercase_equals("TRUE", "true"));
    assert!(lowercase_equals("Yes", "yes"));
    assert!(!lowercase_equals("yess", "yes"));
}

#[test]
fn screen_buffer_clips_writes_to_the_screen() {
    let mut buffer = ScreenBuffer::filled(Color::White);
    assert_eq!(buffer.width(), 800);
    assert_eq!(buffer.height(), 480);
    assert!(buffer.set_pixel(799, 479, Color::Red));
    assert!(!buffer.set_pixel(800, 0, Color::Red));
    assert_eq!(buffer.get_pixel(799, 479), Some(Color::Red));
    assert_eq!(buffer.get_pixel(0, 480), None);
    buffer.fill_rect(790, 470, 50, 50, Color::Blue);
    assert_eq!(buffer.get_pixel(799, 479), Some(Color::Blue));
    assert_eq!(buffer.get_pixel(789, 479), Some(Color::White));
    buffer.clear(Color::Black);
    assert!(buffer.pixels().iter().all(|pixel| *pixel == Color::Black));
}

#[test]
fn mock_display_refuses_frames_before_power_on() {
    let mut display = MockDisplay::new();
    let frame = ScreenBuffer::filled(Color::Green);
    assert_eq!(display.show(&frame, DisplayRefreshMode::Full), Err(DisplayError::NotInitialized));
    assert_eq!(display.refresh_count(), 0);
    assert_eq!(display.power_on(), Ok(()));
    assert_eq!(display.show(&frame, DisplayRefreshMode::Full), Ok(()));
    assert_eq!(display.refresh_count(), 1);
    assert_eq!(display.last_refresh_mode(), Some(DisplayRefreshMode::Full));
    assert_eq!(display.last_frame().unwrap().get_pixel(3, 3), Some(Color::Green));
    assert_eq!(display.power_off(), Ok(()));
    assert!(display.is_sleeping());
}

fn context(battery: BatteryStatus, state: PersistentDeviceState) -> RunContext {
    RunContext {
        now: 1_780_000_000,
        date: date("2026-06-14"),
        trigger: RunTrigger::Wake(WakeReason::Timer),
        battery,
        power: PowerProfile::Battery,
        config: Some(config()),
        plans: Some(vec![Plan::fixed(date("2026-06-14"), "Beach", "sha-beach")]),
        state,
        sync: PersistentSyncState::default(),
    }
}

#[test]
fn sync_error_page_shows_the_message_in_capitals() {
    let battery = BatteryStatus::new(3900, Some(80), ChargeState::Discharging, false);
    let report = SyncErrorReport::new("net.timeout", "network", None, "wifi timed out (5s)", "detail text");
    let decision = decide_display_with(&context(battery, PersistentDeviceState::new()), true, Some(&report));
    assert_eq!(decision.cause, DisplayCause::Sync);
    match decision.action {
        DisplayAction::Refresh(DisplayTarget::Page { title, message, detail, .. }) => {
            assert_eq!(title, "SYNC ERROR");
            assert_eq!(message, "WIFI TIMED OUT (5S)");
            assert_eq!(detail, "detail text");
        }
        other => panic!("unexpected action {other:?}"),
    }
}

#[test]
fn shown_photo_is_kept_on_the_next_decision() {
    let battery = BatteryStatus::new(3900, Some(80), ChargeState::Discharging, false);
    let plan = Plan::fixed(date("2026-06-14"), "Beach", "sha-beach");
    let state = PersistentDeviceState::from_display(date("2026-06-14"), &plan);
    let decision = decide_display_with(&context(battery, state), true, None);
    assert_eq!(decision.action, DisplayAction::Keep);
    assert_eq!(decision.cause, DisplayCause::Same);

    let decision = decide_display_with(&context(battery, PersistentDeviceState::new()), true, None);
    assert_eq!(decision.cause, DisplayCause::First);
    let decision = decide_display_with(&context(battery, PersistentDeviceState::new()), false, None);
    assert_eq!(decision.cause, DisplayCause::MissingPhoto);
}

#[test]
fn wake_probe_maps_to_run_trigger() {
    assert_eq!(run_trigger_for_wake(WakeProbe::Timer), RunTrigger::Wake(WakeReason::Timer));
    assert_eq!(run_trigger_for_wake(WakeProbe::Button), RunTrigger::Wake(WakeReason::Button));
    assert_eq!(run_trigger_for_wake(WakeProbe::Unknown), RunTrigger::Startup);
    assert_eq!(run_trigger_for_wake(WakeProbe::Ulp), RunTrigger::Wake(WakeReason::External));
    assert_eq!(run_trigger_for_wake(WakeProbe::Other(7)), RunTrigger::Wake(WakeReason::External));
}

#[test]
fn next_run_wait_follows_power_source() {
    assert_eq!(next_run_wait(0, true, true), NextRunWait::Immediate);
    assert_eq!(next_run_wait(0, false, false), NextRunWait::Immediate);
    assert_eq!(next_run_wait(60, true, true), NextRunWait::AwakeWithKeyListener);
    assert_eq!(next_run_wait(60, true, false), NextRunWait::Awake);
    assert_eq!(next_run_wait(60, false, true), NextRunWait::DeepSleep);
}

#[test]
fn text_block_shows_glyph_bits_on_background() {
    let mut buffer = ScreenBuffer::filled(Color::Yellow);
    let style = TextStyle::default();
    draw_text_at(&mut buffer, 0, 0, "I", &style);
    // The block is 5 + 2 * 8 wide and 7 + 2 * 6 high; the glyph starts at (8, 6).
    assert_eq!(buffer.get_pixel(0, 0), Some(Color::White));
    assert_eq!(buffer.get_pixel(8, 6), Some(Color::White));
    assert_eq!(buffer.get_pixel(9, 6), Some(Color::Black));
    assert_eq!(buffer.get_pixel(11, 6), Some(Color::Black));
    assert_eq!(buffer.get_pixel(12, 6), Some(Color::White));
    assert_eq!(buffer.get_pixel(10, 7), Some(Color::Black));
    assert_eq!(buffer.get_pixel(9, 7), Some(Color::White));
    assert_eq!(buffer.get_pixel(20, 18), Some(Color::White));
    assert_eq!(buffer.get_pixel(21, 0), Some(Color::Yellow));
    assert_eq!(buffer.get_pixel(0, 19), Some(Color::Yellow));
}

#[test]
fn config_probe_judges_the_file() {
    let read = ConfigRead::Parsed(config());
    assert_eq!(probe_storage(&read), StorageProbe::Available);
    let probed = probe_config(read);
    assert_eq!(probed.probe, ConfigProbe::Valid);
    assert_eq!(probed.value, Some(config()));
    let mut incomplete = config();
    incomplete.secret_key = String::new();
    let probed = probe_config(ConfigRead::Parsed(incomplete.clone()));
    assert_eq!(probed.probe, ConfigProbe::Incomplete);
    assert_eq!(probed.value, None);
    assert_eq!(usable_config(ConfigRead::Parsed(incomplete)), None);
    assert_eq!(usable_config(ConfigRead::Parsed(config())), Some(config()));
    assert_eq!(probe_config(ConfigRead::ParseError).probe, ConfigProbe::ParseError);
    assert_eq!(probe_config(ConfigRead::Missing).probe, ConfigProbe::Missing);
    assert_eq!(probe_config(ConfigRead::ReadError).probe, ConfigProbe::ReadError);
    assert_eq!(probe_config(ConfigRead::MountError).probe, ConfigProbe::ReadError);
    assert_eq!(probe_storage(&ConfigRead::MountError), StorageProbe::MountError);
    assert_eq!(probe_storage(&ConfigRead::Missing), StorageProbe::Available);
}

#[test]
fn wifi_failures_are_reported_with_their_code() {
    let report = WifiConnectError::TargetNotFound.report();
    assert_eq!(report.code, "wifi.target-not-found");
    assert_eq!(report.category, "wifi");
    assert_eq!(report.stage.as_deref(), Some("wifi"));
    assert_eq!(report.message, "wifi connection failed");
    assert_eq!(report.detail, "TargetNotFound");
    assert_eq!(WifiConnectError::NetifError.code(), "netif");
    assert_eq!(WifiConnectError::InitError.report().code, "wifi.init");
}

#[test]
fn pixels_written_through_the_slice_are_the_frame() {
    let mut buffer = ScreenBuffer::filled(Color::White);
    {
        let pixels = buffer.pixels_mut();
        assert_eq!(pixels.len(), 800 * 480);
        pixels[0] = Color::Red;
        pixels[800 * 2 + 5] = Color::Blue;
    }
    assert_eq!(buffer.get_pixel(0, 0), Some(Color::Red));
    assert_eq!(buffer.get_pixel(5, 2), Some(Color::Blue));
    assert_eq!(buffer.get_pixel(1, 0), Some(Color::White));
}
