use epaper_album::cache::{cleanup_candidates, missing_resources, protected_resources};
use epaper_album::model::{CachedResource, DisplayState, LocalDate, PlanItem, PlanSnapshot, ResourceIndex};

fn date(value: &str) -> LocalDate {
    LocalDate::parse(value).unwrap()
}

fn snapshot(images: &[&str]) -> PlanSnapshot {
    PlanSnapshot {
        content_hash: "hash-v1".to_string(),
        plans: vec![PlanItem {
            id: 1,
            start: date("2026-06-06"),
            end: date("2026-06-08"),
            caption: "caption".to_string(),
            images: images.iter().map(|image| image.to_string()).collect(),
        }],
    }
}

fn resource(sha256: &str, byte_size: u64, last_used_at_unix_secs: u64) -> CachedResource {
    CachedResource {
        sha256: sha256.to_string(),
        byte_size,
        last_used_at_unix_secs,
    }
}

#[test]
fn reports_missing_resources_without_duplicates() {
    let snapshot = snapshot(&["a", "b", "a", "c"]);
    let index = ResourceIndex {
        resources: vec![resource("a", 10, 1), resource("c", 10, 1)],
    };

    assert_eq!(missing_resources(&snapshot, &index), vec!["b"]);
}

#[test]
fn protects_plan_resources_and_last_displayed_resource() {
    let snapshot = snapshot(&["a"]);
    let display_state = DisplayState {
        image_sha256: Some("last".to_string()),
        ..DisplayState::default()
    };

    let protected = protected_resources(&snapshot, Some(&display_state));

    assert!(protected.contains(&"a".to_string()));
    assert!(protected.contains(&"last".to_string()));
}

#[test]
fn returns_no_cleanup_candidates_when_space_is_above_low_watermark() {
    let index = ResourceIndex {
        resources: vec![resource("old", 100, 1)],
    };

    let candidates = cleanup_candidates(&index, &Vec::new(), 1_000, 500, 2_000);

    assert!(candidates.is_empty());
}

#[test]
fn selects_oldest_unprotected_resources_until_target_free_space() {
    let index = ResourceIndex {
        resources: vec![
            resource("protected", 500, 1),
            resource("new", 700, 30),
            resource("old", 600, 10),
            resource("older", 800, 5),
        ],
    };
    let protected = vec!["protected".to_string()];

    let candidates = cleanup_candidates(&index, &protected, 100, 500, 1_500);

    assert_eq!(
        candidates
            .iter()
            .map(|candidate| candidate.sha256.as_str())
            .collect::<Vec<_>>(),
        vec!["older", "old"]
    );
    assert_eq!(candidates.last().unwrap().free_bytes_after_delete, 1_500);
}
