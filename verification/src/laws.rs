use crate::app::cycle::{
    config_is_usable, selected_plan, spec_decide_display, spec_decide_sync, DisplayActionView, DisplayCause,
    SyncAction, SyncCause, SyncErrorReport,
};
use crate::model::Plan;
use crate::render::RenderNotice;
use crate::state::PersistentDeviceState;
use crate::app::{spec_run_outcome, RunOutcome, RunTrigger};
use crate::bmp::{bgr_mirrored_packed_byte, bgr_packed_byte, bgr_row_is_palette, spec_bgr_color, spec_exact_panel_color};
use crate::cache::{cleanup_plan, deletable, spec_missing, CacheCleanupCandidate};
use crate::config::Config;
use crate::display::Color;
use crate::epd::{spec_epd_color_code, spec_pack_epd_pixels, EPD_ROW_BYTES, EPD_WIDTH};
use crate::diagnostics::{digit_char, padded_digits, spec_date_text};
use crate::model::{
    all_digits, digit_value, digits_value, holds_resource, is_digit, is_valid_date, pow10, spec_parse_date,
    spec_touch, spec_upsert, CachedResource, LocalDate,
};
use crate::power::{BatteryStatus, PowerProfile};
use crate::server::config::{spec_is_weak_production_value, spec_settings, EnvVars};
use crate::text::spec_trim;
use crate::state::PersistentSyncState;
use crate::app::{decision_for_item, spec_display_needs_refresh, DisplayDecision};
use crate::model::{DisplayItem, DisplayState};
use crate::server::images::{spec_upload_transition, ImageStatus, UploadTransition, UploadWrite};
use crate::state::RefreshReason;
use vstd::prelude::*;

verus! {

/// A battery that is low and not on external power never lets the device
/// talk to the server.
pub proof fn law_low_battery_never_syncs(
    config: Option<Config>,
    battery: BatteryStatus,
    sync_state: PersistentSyncState,
    date: LocalDate,
)
    requires
        battery.spec_effective_low_battery(),
    ensures
        spec_decide_sync(config, battery, sync_state, date).action == SyncAction::Skip,
        spec_decide_sync(config, battery, sync_state, date).cause == SyncCause::LowBattery,
{
}

/// On battery power the device syncs at most once a day: once a sync of `date`
/// is recorded, a later decision on the same date skips.
pub proof fn law_battery_syncs_once_a_day(config: Option<Config>, battery: BatteryStatus, date: LocalDate)
    requires
        PowerProfile::spec_from_battery(battery) == PowerProfile::Battery,
    ensures
        spec_decide_sync(config, battery, PersistentSyncState { date: Some(date) }, date).action
            == SyncAction::Skip,
{
}

/// On external power a usable configuration always syncs.
pub proof fn law_external_power_always_syncs(
    config: Option<Config>,
    battery: BatteryStatus,
    sync_state: PersistentSyncState,
    date: LocalDate,
)
    requires
        PowerProfile::spec_from_battery(battery) == PowerProfile::External,
        config_is_usable(config),
    ensures
        spec_decide_sync(config, battery, sync_state, date).action == SyncAction::Fetch,
{
}

/// A run started by hand always asks for a sync unless the battery is low, and
/// a low battery never leads to a sync.
pub proof fn law_manual_run_syncs_unless_low(daily_sync_due: bool, display_refresh_due: bool, low_battery: bool)
    ensures
        !low_battery ==> spec_run_outcome(RunTrigger::Manual, daily_sync_due, display_refresh_due, low_battery)
            == RunOutcome::SyncRequested,
        forall|trigger: RunTrigger|
            spec_run_outcome(trigger, daily_sync_due, display_refresh_due, true) != RunOutcome::SyncRequested,
{
}

/// Different inks get different panel codes, and a packed byte holds the code
/// of its left pixel in the high nibble and of its right pixel in the low one.
pub proof fn law_panel_codes(left: Color, right: Color)
    ensures
        left != right ==> spec_epd_color_code(left) != spec_epd_color_code(right),
        spec_pack_epd_pixels(left, right) / 16 == spec_epd_color_code(left),
        spec_pack_epd_pixels(left, right) % 16 == spec_epd_color_code(right),
{
}

/// Each ink is read from exactly one colour of a bitmap.
pub proof fn law_exact_colors_are_distinct(a: (u8, u8, u8), b: (u8, u8, u8))
    requires
        spec_exact_panel_color(a.0, a.1, a.2) is Some,
        spec_exact_panel_color(a.0, a.1, a.2) == spec_exact_panel_color(b.0, b.1, b.2),
    ensures
        a == b,
{
}

/// After recording an image the card index holds it.
pub proof fn law_upsert_records(resources: Seq<CachedResource>, resource: CachedResource)
    ensures
        holds_resource(spec_upsert(resources, resource), resource.sha256@),
{
    if holds_resource(resources, resource.sha256@) {
        let i = choose|i: int| 0 <= i < resources.len() && (#[trigger] resources[i]).sha256@ == resource.sha256@;
        assert(spec_upsert(resources, resource)[i] == resource);
    } else {
        assert(spec_upsert(resources, resource)[resources.len() as int] == resource);
    }
}

/// Marking an image used changes no image's presence on the card.
pub proof fn law_touch_keeps_images(resources: Seq<CachedResource>, sha256: Seq<char>, now: u64, image: Seq<char>)
    ensures
        holds_resource(spec_touch(resources, sha256, now), image) == holds_resource(resources, image),
{
    let touched = spec_touch(resources, sha256, now);
    if holds_resource(resources, image) {
        let i = choose|i: int| 0 <= i < resources.len() && (#[trigger] resources[i]).sha256@ == image;
        assert(touched[i].sha256@ == image);
    }
    if holds_resource(touched, image) {
        let i = choose|i: int| 0 <= i < touched.len() && (#[trigger] touched[i]).sha256@ == image;
        assert(resources[i].sha256@ == image);
    }
}

/// A clean-up never deletes a protected image.
pub proof fn law_cleanup_spares_protected(
    resources: Seq<CachedResource>,
    protected: Seq<Seq<char>>,
    available: u64,
    target: u64,
    picks: Seq<int>,
    candidates: Seq<CacheCleanupCandidate>,
)
    requires
        cleanup_plan(resources, protected, available, target, picks, candidates),
    ensures
        forall|k: int| 0 <= k < candidates.len() ==> !protected.contains(#[trigger] candidates[k].sha256@),
{
    assert forall|k: int| 0 <= k < candidates.len() implies !protected.contains(
        #[trigger] candidates[k].sha256@,
    ) by {
        assert(deletable(resources, protected, picks[k]));
    }
}

/// The images reported missing are not on the card, come once each, and every
/// named image that is not on the card is among them.
pub proof fn law_missing_images(images: Seq<Seq<char>>, resources: Seq<CachedResource>)
    ensures
        forall|i: int|
            0 <= i < spec_missing(images, resources).len() ==> !holds_resource(
                resources,
                #[trigger] spec_missing(images, resources)[i],
            ),
        forall|i: int, j: int|
            0 <= i < j < spec_missing(images, resources).len() ==> spec_missing(images, resources)[i]
                != spec_missing(images, resources)[j],
        forall|image: Seq<char>|
            images.contains(image) && !holds_resource(resources, image) ==> #[trigger] spec_missing(
                images,
                resources,
            ).contains(image),
    decreases images.len(),
{
    if images.len() > 0 {
        let rest = images.drop_last();
        law_missing_images(rest, resources);
        let last = images.last();
        let before = spec_missing(rest, resources);
        assert forall|image: Seq<char>|
            images.contains(image) && !holds_resource(resources, image) implies #[trigger] spec_missing(
            images,
            resources,
        ).contains(image) by {
            let k = choose|k: int| 0 <= k < images.len() && images[k] == image;
            if k < images.len() - 1 {
                assert(rest[k] == image);
                assert(rest.contains(image));
                assert(before.contains(image));
                let w = choose|w: int| 0 <= w < before.len() && before[w] == image;
                if !(holds_resource(resources, last) || before.contains(last)) {
                    assert(spec_missing(images, resources)[w] == image);
                }
            } else {
                if before.contains(image) {
                    let w = choose|w: int| 0 <= w < before.len() && before[w] == image;
                    if !(holds_resource(resources, last) || before.contains(last)) {
                        assert(spec_missing(images, resources)[w] == image);
                    }
                } else {
                    assert(spec_missing(images, resources)[before.len() as int] == image);
                }
            }
        }
    }
}


proof fn lemma_digit_char(digit: int)
    requires
        0 <= digit <= 9,
    ensures
        is_digit(digit_char(digit)),
        digit_value(digit_char(digit)) == digit,
{
}

proof fn lemma_digits_value_same(s: Seq<char>, start: int, t: Seq<char>, count: nat)
    requires
        forall|i: int| 0 <= i < count ==> s[start + i] == #[trigger] t[i],
    ensures
        digits_value(s, start, count) == digits_value(t, 0, count),
    decreases count,
{
    if count > 0 {
        lemma_digits_value_same(s, start, t, (count - 1) as nat);
        assert(s[start + count - 1] == t[count - 1]);
    }
}

proof fn lemma_padded_digits(value: nat, width: nat)
    requires
        width >= 1,
        value < pow10(width),
    ensures
        padded_digits(value, width).len() == width,
        all_digits(padded_digits(value, width), 0, width as int),
        digits_value(padded_digits(value, width), 0, width) == value,
    decreases width,
{
    let text = padded_digits(value, width);
    if value < 10 && width <= 1 {
        lemma_digit_char(value as int);
        assert(digits_value(text, 0, 0) == 0);
    } else {
        assert(width >= 2) by {
            if width == 1 {
                assert(pow10(1) == 10) by {
                    reveal_with_fuel(pow10, 2);
                }
            }
        }
        let rest = (width - 1) as nat;
        assert(value / 10 < pow10(rest)) by (nonlinear_arith)
            requires
                value < pow10(width),
                pow10(width) == 10 * pow10(rest),
        ;
        lemma_padded_digits(value / 10, rest);
        let head = padded_digits(value / 10, rest);
        lemma_digit_char((value % 10) as int);
        assert(text == head + seq![digit_char((value % 10) as int)]);
        assert forall|i: int| 0 <= i < rest implies text[0 + i] == #[trigger] head[i] by {}
        lemma_digits_value_same(text, 0, head, rest);
        assert(text[width - 1] == digit_char((value % 10) as int));
        assert(digits_value(text, 0, width) == digits_value(text, 0, rest) * 10 + (value % 10) as int);
        assert(value / 10 * 10 + value % 10 == value) by (nonlinear_arith);
    }
}

/// Writing a date `YYYY-MM-DD` and reading it back gives the same date, for
/// every valid date with a four-digit year.
pub proof fn law_date_text_reads_back(date: LocalDate)
    requires
        date.is_valid(),
        date.year <= 9999,
    ensures
        spec_parse_date(spec_date_text(date)) == Some((date.year as int, date.month as int, date.day as int)),
{
    reveal_strlit("-");
    assert(pow10(4) == 10000 && pow10(2) == 100) by {
        reveal_with_fuel(pow10, 5);
    }
    lemma_padded_digits(date.year as nat, 4);
    lemma_padded_digits(date.month as nat, 2);
    lemma_padded_digits(date.day as nat, 2);
    let year = padded_digits(date.year as nat, 4);
    let month = padded_digits(date.month as nat, 2);
    let day = padded_digits(date.day as nat, 2);
    let text = spec_date_text(date);
    assert(text == year + "-"@ + month + "-"@ + day);
    assert(text.len() == 10);
    assert forall|i: int| 0 <= i < 4 implies text[0 + i] == #[trigger] year[i] by {}
    assert forall|i: int| 0 <= i < 2 implies text[5 + i] == #[trigger] month[i] by {}
    assert forall|i: int| 0 <= i < 2 implies text[8 + i] == #[trigger] day[i] by {}
    lemma_digits_value_same(text, 0, year, 4);
    lemma_digits_value_same(text, 5, month, 2);
    lemma_digits_value_same(text, 8, day, 2);
    assert(all_digits(text, 0, 4)) by {
        assert forall|i: int| 0 <= i < 4 implies is_digit(#[trigger] text[i]) by {
            assert(text[i] == year[i]);
        }
    }
    assert(all_digits(text, 5, 2)) by {
        assert forall|i: int| 5 <= i < 7 implies is_digit(#[trigger] text[i]) by {
            assert(text[i] == month[i - 5]);
        }
    }
    assert(all_digits(text, 8, 2)) by {
        assert forall|i: int| 8 <= i < 10 implies is_digit(#[trigger] text[i]) by {
            assert(text[i] == day[i - 8]);
        }
    }
    assert(text[4] == '-');
    assert(text[7] == '-');
    assert(is_valid_date(date.year as int, date.month as int, date.day as int));
}


/// A state made from a plan records that plan as shown on the plan's date.
pub proof fn law_state_from_plan_shows_plan(plan: Plan, notice: Option<RenderNotice>)
    ensures
        (PersistentDeviceState {
            date: Some(plan.date),
            image: Some(plan.image),
            caption: Some(plan.caption),
            notice,
        }).shows(plan.date, plan),
{
}

/// Once the panel shows the selected plan's photo for the date, the next
/// decision with the same plans and a photo on the card keeps the panel as it
/// is, when the configuration is present, the battery is not low and the sync
/// did not fail.
pub proof fn law_shown_photo_is_kept(
    battery: BatteryStatus,
    plans: Option<Seq<Plan>>,
    state: PersistentDeviceState,
    date: LocalDate,
)
    requires
        !battery.spec_effective_low_battery(),
        selected_plan(plans, date) matches Some(plan) && state.shows(date, plan),
    ensures
        spec_decide_display(true, battery, plans, state, date, true, None::<SyncErrorReport>).action
            == DisplayActionView::Keep,
        spec_decide_display(true, battery, plans, state, date, true, None::<SyncErrorReport>).cause
            == DisplayCause::Same,
{
}

/// A credential a production server starts with is present (not blank), not
/// the development default and not a placeholder.
pub open spec fn strong_credential(value: Seq<char>, dev_default: Seq<char>) -> bool {
    spec_trim(value).len() > 0 && !spec_is_weak_production_value(spec_trim(value), dev_default)
}

/// A production server never starts with a device secret or administrator
/// credential that is missing, blank, the development default or a placeholder.
pub proof fn law_production_refuses_weak_credentials(vars: EnvVars)
    ensures
        spec_settings(vars) matches Ok(view) ==> (view.production ==> {
            &&& strong_credential(view.secret_key, "local-secret-key"@)
            &&& strong_credential(view.admin_username, "admin"@)
            &&& strong_credential(view.admin_password, "admin"@)
        }),
{
}

/// A full-panel row with its pixels in the opposite order, each pixel's three
/// bytes kept as they are.
pub open spec fn reversed_pixels(row: Seq<u8>) -> Seq<u8> {
    Seq::new((EPD_WIDTH * 3) as nat, |k: int| row[3 * (EPD_WIDTH - 1 - k / 3) + k % 3])
}

proof fn lemma_reversed_pixel(row: Seq<u8>, x: int)
    requires
        row.len() >= EPD_WIDTH * 3,
        0 <= x < EPD_WIDTH,
    ensures
        spec_bgr_color(reversed_pixels(row), x) == spec_bgr_color(row, EPD_WIDTH - 1 - x),
{
    let reversed = reversed_pixels(row);
    assert((3 * x) / 3 == x && (3 * x) % 3 == 0);
    assert((3 * x + 1) / 3 == x && (3 * x + 1) % 3 == 1);
    assert((3 * x + 2) / 3 == x && (3 * x + 2) % 3 == 2);
    assert(reversed[3 * x] == row[3 * (EPD_WIDTH - 1 - x)]);
    assert(reversed[3 * x + 1] == row[3 * (EPD_WIDTH - 1 - x) + 1]);
    assert(reversed[3 * x + 2] == row[3 * (EPD_WIDTH - 1 - x) + 2]);
}

/// Packing a row stored right to left is packing the same row with its pixels
/// reversed: each packed byte agrees, and one row is all inks exactly when the
/// other is.
pub proof fn law_mirrored_row_is_reversed_row(row: Seq<u8>)
    requires
        row.len() >= EPD_WIDTH * 3,
    ensures
        forall|i: int|
            0 <= i < EPD_ROW_BYTES ==> #[trigger] bgr_mirrored_packed_byte(row, i) == bgr_packed_byte(
                reversed_pixels(row),
                i,
            ),
        bgr_row_is_palette(row) == bgr_row_is_palette(reversed_pixels(row)),
{
    assert forall|i: int| 0 <= i < EPD_ROW_BYTES implies #[trigger] bgr_mirrored_packed_byte(row, i)
        == bgr_packed_byte(reversed_pixels(row), i) by {
        lemma_reversed_pixel(row, 2 * i);
        lemma_reversed_pixel(row, 2 * i + 1);
    }
    assert forall|x: int| 0 <= x < EPD_WIDTH implies spec_bgr_color(reversed_pixels(row), x)
        == spec_bgr_color(row, EPD_WIDTH - 1 - x) by {
        lemma_reversed_pixel(row, x);
    }
    if bgr_row_is_palette(row) {
        assert forall|x: int| 0 <= x < EPD_WIDTH implies (#[trigger] spec_bgr_color(reversed_pixels(row), x)) is Some by {
            lemma_reversed_pixel(row, x);
            assert(spec_bgr_color(row, EPD_WIDTH - 1 - x) is Some);
        }
    }
    if bgr_row_is_palette(reversed_pixels(row)) {
        assert forall|x: int| 0 <= x < EPD_WIDTH implies (#[trigger] spec_bgr_color(row, x)) is Some by {
            lemma_reversed_pixel(row, EPD_WIDTH - 1 - x);
            assert(spec_bgr_color(reversed_pixels(row), EPD_WIDTH - 1 - x) is Some);
        }
    }
}

/// Uploading again an image whose processing failed always sends it back to
/// pending and queues it again; whether a remark came with the upload decides
/// only whether the remark is written along with the status.
pub proof fn law_failed_upload_is_retried(remark_given: bool)
    ensures
        spec_upload_transition(Some(ImageStatus::Failed), remark_given) == (UploadTransition {
            write: if remark_given { UploadWrite::StatusAndRemark } else { UploadWrite::Status },
            status: ImageStatus::Pending,
            enqueue: true,
        }),
{
}

/// After any upload the image is queued for processing exactly when it is not
/// already ready; a ready image stays ready, and no upload leaves an image
/// failed.
pub proof fn law_upload_queues_all_but_ready(existing: Option<ImageStatus>, remark_given: bool)
    ensures
        spec_upload_transition(existing, remark_given).enqueue <==> existing != Some(ImageStatus::Ready),
        spec_upload_transition(existing, remark_given).status == ImageStatus::Ready <==> existing == Some(
            ImageStatus::Ready,
        ),
        spec_upload_transition(existing, remark_given).status != ImageStatus::Failed,
        existing is None ==> spec_upload_transition(existing, remark_given).write == UploadWrite::Insert,
{
}

/// A remark changes only what is written: the status an upload leaves and
/// whether it queues the image are the same with or without one.
pub proof fn law_remark_changes_only_the_write(existing: Option<ImageStatus>)
    ensures
        spec_upload_transition(existing, true).status == spec_upload_transition(existing, false).status,
        spec_upload_transition(existing, true).enqueue == spec_upload_transition(existing, false).enqueue,
{
}

/// A screen that shows another photo than the item's (or none) must be
/// redrawn, whatever plan, date and caption it shows.
pub proof fn law_other_photo_needs_refresh(previous: DisplayState, item: DisplayItem)
    requires
        !(previous.image_sha256 matches Some(image) && image@ == item.image_sha256@),
    ensures
        spec_display_needs_refresh(Some(previous), item),
{
}

/// A screen is left as it is only when it shows the item's plan, date, photo
/// and caption; a change in any one of them, or a screen never drawn, asks for
/// a refresh.
pub proof fn law_refresh_unless_same_content(previous: DisplayState, item: DisplayItem)
    ensures
        spec_display_needs_refresh(None, item),
        previous.plan_id != Some(item.plan_id) ==> spec_display_needs_refresh(Some(previous), item),
        previous.date != Some(item.date) ==> spec_display_needs_refresh(Some(previous), item),
        !(previous.caption matches Some(caption) && caption@ == item.caption@) ==> spec_display_needs_refresh(
            Some(previous),
            item,
        ),
        (previous.plan_id == Some(item.plan_id) && previous.date == Some(item.date) && (previous.image_sha256 matches Some(
            image,
        ) && image@ == item.image_sha256@) && (previous.caption matches Some(caption) && caption@ == item.caption@))
            ==> !spec_display_needs_refresh(Some(previous), item),
{
}

/// When the screen shows a photo and the item selected for it is another
/// photo, the decision is to redraw with that item, because the shown item
/// changed.
pub proof fn law_other_photo_is_redrawn(previous: DisplayState, item: DisplayItem)
    requires
        previous.image_sha256 is Some,
        previous.image_sha256->Some_0@ != item.image_sha256@,
    ensures
        decision_for_item(item, Some(previous)) == (DisplayDecision::RefreshRequired {
            item,
            display_state: DisplayState::spec_from_item(item),
            reason: RefreshReason::DisplayItemChanged,
        }),
{
}

/// A known image that has not failed keeps its status on a new upload; what
/// is written is the status and remark when a remark came, else the status
/// alone when it changes, else nothing.
pub proof fn law_upload_write(status: ImageStatus, remark_given: bool)
    ensures
        status != ImageStatus::Failed ==> spec_upload_transition(Some(status), remark_given).status == status,
        remark_given ==> spec_upload_transition(Some(status), remark_given).write == UploadWrite::StatusAndRemark,
        !remark_given ==> spec_upload_transition(Some(status), remark_given).write == (if spec_upload_transition(
            Some(status),
            remark_given,
        ).status != status {
            UploadWrite::Status
        } else {
            UploadWrite::Nothing
        }),
{
}

} // verus!
