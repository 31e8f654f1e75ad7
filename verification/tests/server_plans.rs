use epaper_album::model::LocalDate;
use epaper_album::server::plans::{
    classify_store_error, normalize_plan, plan_from_row, plan_selection_check, PlanSelectionCheck, StoredPlanError, parse_plan_date, parse_plan_range, plan_type_from_str, plan_type_str,
    user_plan, validate_plan_payload, Plan, PlanRequestError, PlanType, StoreErrorAnswer,
};

const SHA: &str = "0123456789abcdef0123456789abcdef0123456789abcdef0123456789abcdef";

fn date(text: &str) -> LocalDate {
    LocalDate::parse(text).unwrap()
}

fn plan(plan_type: PlanType, caption: &str, image: &str, tags: &[&str]) -> Plan {
    Plan {
        date: date("2026-06-14"),
        caption: caption.to_string(),
        plan_type,
        image: image.to_string(),
        tags: tags.iter().map(|tag| tag.to_string()).collect(),
    }
}

#[test]
fn plan_dates_must_be_present_and_well_formed() {
    assert_eq!(parse_plan_date("2026-06-14"), Ok(date("2026-06-14")));
    assert_eq!(parse_plan_date("  "), Err(PlanRequestError::EmptyDate));
    assert_eq!(parse_plan_date("2026-02-30"), Err(PlanRequestError::InvalidDate));
    assert_eq!(parse_plan_date("14/06/2026"), Err(PlanRequestError::InvalidDate));
    assert_eq!(PlanRequestError::EmptyDate.message(), "计划日期不能为空");
    assert_eq!(PlanRequestError::InvalidDate.message(), "计划日期格式应为 YYYY-MM-DD");
}

#[test]
fn plan_range_uses_given_dates_or_days_from_today() {
    let today = date("2026-06-29");
    assert_eq!(
        parse_plan_range(Some("2026-06-01"), Some("2026-06-03"), Some("7"), today),
        Ok((date("2026-06-01"), date("2026-06-03")))
    );
    assert_eq!(
        parse_plan_range(Some("2026-06-03"), Some("2026-06-01"), None, today),
        Err(PlanRequestError::EndBeforeStart)
    );
    assert_eq!(
        parse_plan_range(Some("bad"), Some("2026-06-01"), None, today),
        Err(PlanRequestError::InvalidDate)
    );
    assert_eq!(parse_plan_range(None, None, None, today), Ok((today, date("2026-07-01"))));
    assert_eq!(parse_plan_range(Some("2026-06-01"), None, Some("30"), today), Ok((today, date("2026-07-05"))));
    assert_eq!(parse_plan_range(None, None, Some("0"), today), Ok((today, today)));
    assert_eq!(
        parse_plan_range(None, None, Some("x"), date("2026-12-31")),
        Ok((date("2026-12-31"), date("2027-01-02")))
    );
}

#[test]
fn plan_payloads_are_checked_by_type() {
    assert_eq!(validate_plan_payload(&plan(PlanType::Fixed, "Beach", SHA, &[])), Ok(()));
    assert_eq!(validate_plan_payload(&plan(PlanType::Fixed, "Beach", "", &[])), Ok(()));
    assert_eq!(
        validate_plan_payload(&plan(PlanType::Fixed, "  ", SHA, &[])),
        Err(PlanRequestError::EmptyCaption)
    );
    assert_eq!(
        validate_plan_payload(&plan(PlanType::Fixed, "Beach", "not-a-sha", &[])),
        Err(PlanRequestError::InvalidImage)
    );
    assert_eq!(validate_plan_payload(&plan(PlanType::Random, "Any", "", &["sea"])), Ok(()));
    assert_eq!(
        validate_plan_payload(&plan(PlanType::Random, "Any", "", &[" ", ""])),
        Err(PlanRequestError::EmptyTags)
    );
    assert_eq!(PlanRequestError::EmptyTags.message(), "随机计划标签不能为空");
}

#[test]
fn plans_are_normalized_for_storage() {
    let fixed = normalize_plan(plan(PlanType::Fixed, "  Beach ", SHA, &["sea"]));
    assert_eq!(fixed.caption, "Beach");
    assert_eq!(fixed.image, SHA);
    assert!(fixed.tags.is_empty());

    let random = normalize_plan(plan(PlanType::Random, "Any", SHA, &[" sea ", "sea", "", "sun"]));
    assert_eq!(random.image, "");
    assert_eq!(random.tags, vec!["sea", "sun"]);
    assert_eq!(random.plan_type, PlanType::Random);
}

#[test]
fn viewers_see_ready_fixed_plans_and_resolved_random_plans() {
    let fixed = plan(PlanType::Fixed, "Beach", SHA, &["sea"]);
    let shown = user_plan(fixed, true, None).unwrap();
    assert_eq!(shown.image, SHA);
    assert!(shown.tags.is_empty());
    assert!(user_plan(plan(PlanType::Fixed, "Beach", SHA, &[]), false, None).is_none());

    let random = plan(PlanType::Random, "Any", "", &["sea"]);
    let shown = user_plan(random, false, Some("picked".to_string())).unwrap();
    assert_eq!(shown.plan_type, PlanType::Fixed);
    assert_eq!(shown.image, "picked");
    assert!(shown.tags.is_empty());
    assert!(user_plan(plan(PlanType::Random, "Any", "", &["sea"]), true, None).is_none());
}

#[test]
fn plan_types_round_trip_through_their_words() {
    assert_eq!(plan_type_str(PlanType::Fixed), "fixed");
    assert_eq!(plan_type_from_str("random"), Some(PlanType::Random));
    assert_eq!(plan_type_from_str(plan_type_str(PlanType::Fixed)), Some(PlanType::Fixed));
    assert_eq!(plan_type_from_str("daily"), None);
}

#[test]
fn store_errors_are_answered_by_their_text() {
    assert_eq!(classify_store_error("Unknown image sha256: abc"), StoreErrorAnswer::UnknownImage);
    assert_eq!(classify_store_error("Plan date already exists: 2026-06-08"), StoreErrorAnswer::DuplicateDate);
    assert_eq!(
        classify_store_error("error returned from database: UNIQUE constraint failed: plans.date"),
        StoreErrorAnswer::DuplicateDate
    );
    assert_eq!(classify_store_error("disk I/O error"), StoreErrorAnswer::Internal);
    assert_eq!(classify_store_error(""), StoreErrorAnswer::Internal);
    assert_eq!(classify_store_error("an Unknown image sha256:"), StoreErrorAnswer::Internal);
    assert_eq!(StoreErrorAnswer::UnknownImage.message(), Some("请选择已有图片"));
    assert_eq!(StoreErrorAnswer::DuplicateDate.message(), Some("该日期已有计划"));
    assert_eq!(StoreErrorAnswer::Internal.message(), None);
}

#[test]
fn stored_plan_rows_read_back() {
    let plan = plan_from_row("2026-06-08", "Trip".to_string(), "random", String::new(), "[\"sea\",\" sun \"]").unwrap();
    assert_eq!(plan.date, date("2026-06-08"));
    assert_eq!(plan.caption, "Trip");
    assert_eq!(plan.plan_type, PlanType::Random);
    assert_eq!(plan.image, "");
    assert_eq!(plan.tags, vec!["sea".to_string(), " sun ".to_string()]);
    assert_eq!(
        plan_from_row("2026-02-30", "Trip".to_string(), "fixed", SHA.to_string(), "[]"),
        Err(StoredPlanError::InvalidDate)
    );
    assert_eq!(
        plan_from_row("2026-06-08", "Trip".to_string(), "daily", SHA.to_string(), "[]"),
        Err(StoredPlanError::InvalidType)
    );
    assert_eq!(
        plan_from_row("2026-06-08", "Trip".to_string(), "fixed", SHA.to_string(), "sea"),
        Err(StoredPlanError::InvalidTags)
    );
}

#[test]
fn plan_selection_needs_known_image_or_tags() {
    let fixed = Plan {
        date: date("2026-06-08"),
        caption: "Trip".to_string(),
        plan_type: PlanType::Fixed,
        image: SHA.to_string(),
        tags: Vec::new(),
    };
    assert_eq!(plan_selection_check(&fixed), PlanSelectionCheck::ImageMustExist);
    let fixed_without_image = Plan { image: String::new(), ..fixed };
    assert_eq!(plan_selection_check(&fixed_without_image), PlanSelectionCheck::Accepted);
    let random = Plan {
        date: date("2026-06-08"),
        caption: "Trip".to_string(),
        plan_type: PlanType::Random,
        image: String::new(),
        tags: vec![" ".to_string()],
    };
    assert_eq!(plan_selection_check(&random), PlanSelectionCheck::EmptyRandomTags);
    let random_with_tag = Plan { tags: vec!["sea".to_string()], ..random };
    assert_eq!(plan_selection_check(&random_with_tag), PlanSelectionCheck::Accepted);
}
