use epaper_album::model::{LocalDate, Plan};
use epaper_album::pmic::charge_state_from_status;
use epaper_album::power::ChargeState;
use epaper_album::schedule::{display_needs_refresh, next_plan_change_date, select_plan_for_date};
use epaper_album::render::RenderNotice;
use epaper_album::state::{LegacyDisplay, PersistentDeviceState, StoredDeviceState};

fn date(value: &str) -> LocalDate {
    LocalDate::parse(value).unwrap()
}

fn plan(day: &str, caption: &str, image: &str) -> Plan {
    Plan {
        date: date(day),
        caption: caption.to_string(),
        image: image.to_string(),
    }
}

fn fixed_plan() -> Plan {
    Plan {
        date: LocalDate::parse("2026-06-08").unwrap(),
        image: "abc".to_string(),
        caption: "caption".to_string(),
    }
}

#[test]
fn selects_plan_by_exact_date() {
    let plans = vec![
        plan("2026-06-01", "old", "old"),
        plan("2026-06-06", "today", "today"),
    ];

    let selected = select_plan_for_date(&plans, date("2026-06-06")).unwrap();

    assert_eq!(selected.caption, "today");
}

#[test]
fn selects_latest_past_plan_when_date_has_no_plan() {
    let plans = vec![
        plan("2026-06-04", "day-4", "4"),
        plan("2026-06-05", "day-5", "5"),
        plan("2026-06-07", "day-7", "7"),
        plan("2026-06-13", "future", "13"),
    ];

    let selected = select_plan_for_date(&plans, date("2026-06-10")).unwrap();

    assert_eq!(selected.caption, "day-7");
}

#[test]
fn selects_nearest_future_plan_when_no_past_plan_exists() {
    let plans = vec![
        plan("2026-06-12", "future-12", "12"),
        plan("2026-06-13", "future-13", "13"),
    ];

    let selected = select_plan_for_date(&plans, date("2026-06-10")).unwrap();

    assert_eq!(selected.caption, "future-12");
}

#[test]
fn detects_when_display_content_changed() {
    let next = plan("2026-06-06", "caption", "hash");
    let previous = PersistentDeviceState {
        date: Some(date("2026-06-05")),
        image: Some("hash".to_string()),
        caption: Some("caption".to_string()),
        notice: None,
    };

    assert!(display_needs_refresh(&previous, &next));
}

#[test]
fn skips_refresh_when_display_content_is_unchanged() {
    let next = plan("2026-06-06", "caption", "hash");
    let previous = PersistentDeviceState::from_plan(&next, None);

    assert!(!display_needs_refresh(&previous, &next));
}

#[test]
fn computes_next_plan_change_from_next_plan_date() {
    let plans = vec![
        plan("2026-06-06", "current", "a"),
        plan("2026-06-10", "future", "b"),
    ];

    assert_eq!(
        next_plan_change_date(&plans, date("2026-06-06")),
        Some(date("2026-06-10"))
    );
}

#[test]
fn compares_state_with_plan() {
    let plan = fixed_plan();
    let state = PersistentDeviceState::from_plan(&plan, None);

    assert!(state.matches_plan(&plan));
}

#[test]
fn maps_axp2101_status_to_charge_state() {
    let battery_connected = 1 << 3;
    let vbus_good = 1 << 5;

    assert_eq!(
        charge_state_from_status(battery_connected | vbus_good, 0x01 << 5),
        ChargeState::Charging
    );
    assert_eq!(
        charge_state_from_status(battery_connected | vbus_good, 0x04),
        ChargeState::Full
    );
    assert_eq!(
        charge_state_from_status(battery_connected, 0x02 << 5),
        ChargeState::Discharging
    );
    assert_eq!(charge_state_from_status(vbus_good, 0x00), ChargeState::Full);
}

#[test]
fn stored_state_falls_back_to_the_earlier_display_record() {
    let state = PersistentDeviceState::from_stored(StoredDeviceState {
        date: None,
        image: None,
        caption: None,
        notice: None,
        current_display: Some(LegacyDisplay {
            date: Some(LocalDate::parse("2026-06-08").unwrap()),
            image: Some("abc".to_string()),
            caption: Some("caption".to_string()),
        }),
        current_notice: Some(RenderNotice::LowBattery),
    });
    assert_eq!(state.date, Some(LocalDate::parse("2026-06-08").unwrap()));
    assert_eq!(state.image.as_deref(), Some("abc"));
    assert_eq!(state.caption.as_deref(), Some("caption"));
    assert_eq!(state.notice, Some(RenderNotice::LowBattery));

    let flat = PersistentDeviceState::from_stored(StoredDeviceState {
        date: Some(LocalDate::parse("2026-06-09").unwrap()),
        image: Some("new".to_string()),
        caption: None,
        notice: None,
        current_display: Some(LegacyDisplay {
            date: Some(LocalDate::parse("2026-06-08").unwrap()),
            image: Some("old".to_string()),
            caption: Some("old caption".to_string()),
        }),
        current_notice: None,
    });
    assert_eq!(flat.date, Some(LocalDate::parse("2026-06-09").unwrap()));
    assert_eq!(flat.image.as_deref(), Some("new"));
    assert_eq!(flat.caption.as_deref(), Some("old caption"));
    assert_eq!(flat.notice, None);
}
