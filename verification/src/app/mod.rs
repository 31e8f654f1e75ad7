use crate::model::{DisplayItem, DisplayState, LocalDate, PlanItem, PlanSnapshot, ResourceIndex, holds_resource};
use crate::power::BatteryStatus;
use crate::state::{DeviceRecord, RefreshReason, WakeReason};
use vstd::prelude::*;

pub mod cycle;

verus! {

/// What started this run of the device.
#[derive(Clone, Copy, Debug, PartialEq, Eq, Structural)]
pub enum RunTrigger {
    Startup,
    Wake(WakeReason),
    Manual,
}

impl RunTrigger {
    pub open spec fn spec_wake_reason(self) -> WakeReason {
        match self {
            RunTrigger::Startup => WakeReason::Startup,
            RunTrigger::Wake(reason) => reason,
            RunTrigger::Manual => WakeReason::ManualButton,
        }
    }

    pub fn wake_reason(self) -> (result: WakeReason)
        ensures
            result == self.spec_wake_reason(),
    {
        match self {
            RunTrigger::Startup => WakeReason::Startup,
            RunTrigger::Wake(reason) => reason,
            RunTrigger::Manual => WakeReason::ManualButton,
        }
    }
}


/// What one run of the device decided to do.
#[derive(Clone, Copy, Debug, PartialEq, Eq, Structural)]
pub enum RunOutcome {
    SyncRequested,
    RefreshOnly,
    SleepOnly,
    LowBatterySkipSync,
}

/// What one run of the device starts from.
#[derive(Debug, PartialEq, Eq)]
pub struct RunInput {
    pub trigger: RunTrigger,
    pub now_epoch_seconds: u64,
    pub daily_sync_due: bool,
    pub display_refresh_due: bool,
    pub battery: BatteryStatus,
    pub persistent_state: DeviceRecord,
}

/// What one run of the device decided, with the record it leaves.
#[derive(Debug, PartialEq, Eq)]
pub struct RunReport {
    pub trigger: RunTrigger,
    pub outcome: RunOutcome,
    pub wake_reason: WakeReason,
    pub force_sync: bool,
    pub daily_sync_consumed: bool,
    pub display_refresh_due: bool,
    pub battery: BatteryStatus,
    pub persistent_state: DeviceRecord,
}

/// The outcome of a run: a sync when one is asked for (by hand or because the
/// daily one is due) unless the battery is low, else a refresh when one is due.
pub open spec fn spec_run_outcome(trigger: RunTrigger, daily_sync_due: bool, display_refresh_due: bool, low_battery: bool) -> RunOutcome {
    let sync_requested = trigger == RunTrigger::Manual || daily_sync_due;
    if sync_requested && low_battery {
        RunOutcome::LowBatterySkipSync
    } else if sync_requested {
        RunOutcome::SyncRequested
    } else if display_refresh_due {
        RunOutcome::RefreshOnly
    } else {
        RunOutcome::SleepOnly
    }
}

/// Decides one run: records the wake reason and says whether to sync, refresh
/// or sleep. A run by hand forces a sync without using up the daily one; a low
/// battery skips the sync and keeps the daily one due.
pub fn run_once(input: RunInput) -> (report: RunReport)
    ensures
        report.trigger == input.trigger,
        report.wake_reason == input.trigger.spec_wake_reason(),
        report.force_sync == (input.trigger == RunTrigger::Manual),
        report.daily_sync_consumed == (input.daily_sync_due && input.trigger != RunTrigger::Manual
            && !input.battery.low_battery),
        report.outcome == spec_run_outcome(
            input.trigger,
            input.daily_sync_due,
            input.display_refresh_due,
            input.battery.low_battery,
        ),
        report.display_refresh_due == input.display_refresh_due,
        report.battery == input.battery,
        report.persistent_state == (DeviceRecord {
            last_wake_reason: Some(input.trigger.spec_wake_reason()),
            ..input.persistent_state
        }),
{
    let mut input = input;
    let wake_reason = input.trigger.wake_reason();
    input.persistent_state.last_wake_reason = Some(wake_reason);
    let force_sync = match input.trigger {
        RunTrigger::Manual => true,
        _ => false,
    };
    let sync_requested = force_sync || input.daily_sync_due;
    let daily_sync_consumed = input.daily_sync_due && !force_sync && !input.battery.low_battery;
    let outcome = if sync_requested && input.battery.low_battery {
        RunOutcome::LowBatterySkipSync
    } else if sync_requested {
        RunOutcome::SyncRequested
    } else if input.display_refresh_due {
        RunOutcome::RefreshOnly
    } else {
        RunOutcome::SleepOnly
    };
    RunReport {
        trigger: input.trigger,
        outcome,
        wake_reason,
        force_sync,
        daily_sync_consumed,
        display_refresh_due: input.display_refresh_due,
        battery: input.battery,
        persistent_state: input.persistent_state,
    }
}

/// Why no photo can be shown.
#[derive(Clone, Copy, Debug, PartialEq, Eq, Structural)]
pub enum NoUsablePhotoReason {
    NoPlanForDate,
    PlanHasNoImages,
    ResourceNotCached,
}

/// What the screen should do for a catalogue of plans.
#[derive(Debug, PartialEq, Eq)]
pub enum DisplayDecision {
    MissingConfig,
    NoUsablePhoto(NoUsablePhotoReason),
    RefreshRequired { item: DisplayItem, display_state: DisplayState, reason: RefreshReason },
    SleepOnly { display_state: DisplayState },
}

/// A plan covers `date` when it runs from its start to its end, both included.
pub open spec fn plan_covers(plan: PlanItem, date: LocalDate) -> bool {
    plan.start.ordinal() <= date.ordinal() <= plan.end.ordinal()
}

/// The first plan that covers `date`.
pub open spec fn spec_plan_for_date(plans: Seq<PlanItem>, date: LocalDate) -> Option<int> {
    if exists|i: int| 0 <= i < plans.len() && plan_covers(#[trigger] plans[i], date) {
        Some(
            choose|i: int|
                0 <= i < plans.len() && plan_covers(#[trigger] plans[i], date) && forall|j: int|
                    0 <= j < i ==> !plan_covers(#[trigger] plans[j], date),
        )
    } else {
        None
    }
}

/// The index of the first plan that covers `date`.
pub fn select_plan_item_for_date(plans: &Vec<PlanItem>, date: LocalDate) -> (index: Option<usize>)
    ensures
        match index {
            Some(i) => i < plans@.len() && plan_covers(plans@[i as int], date) && forall|j: int|
                0 <= j < i ==> !plan_covers(#[trigger] plans@[j], date),
            None => forall|j: int| 0 <= j < plans@.len() ==> !plan_covers(#[trigger] plans@[j], date),
        },
{
    let mut i: usize = 0;
    while i < plans.len()
        invariant
            i <= plans@.len(),
            forall|j: int| 0 <= j < i ==> !plan_covers(#[trigger] plans@[j], date),
        decreases plans@.len() - i,
    {
        if plans[i].start.is_on_or_before(&date) && date.is_on_or_before(&plans[i].end) {
            return Some(i);
        }
        i = i + 1;
    }
    None
}

/// The image at `offset` steps after `start`, going round the plan's images.
pub open spec fn rotated_index(start: int, offset: int, count: int) -> int {
    (start + offset) % count
}

/// The first offset from `offset` on whose image, going round from `start`, is on the card.
pub open spec fn scan_cached(images: Seq<String>, resources: Seq<crate::model::CachedResource>, start: int, offset: int) -> Option<int>
    decreases images.len() - offset,
{
    if offset < 0 || offset >= images.len() {
        None
    } else if holds_resource(resources, images[rotated_index(start, offset, images.len() as int)]@) {
        Some(offset)
    } else {
        scan_cached(images, resources, start, offset + 1)
    }
}

/// The photo for `date`: the first plan that covers it and the first of its
/// images on the card, going round from the rotation slot.
pub open spec fn spec_usable_item(snapshot: PlanSnapshot, index: ResourceIndex, date: LocalDate, rotation_slot: u64) -> Option<DisplayItem> {
    match spec_plan_for_date(snapshot.plans@, date) {
        None => None,
        Some(p) => {
            let plan = snapshot.plans@[p];
            let count = plan.images@.len();
            if count == 0 {
                None
            } else {
                let start = (rotation_slot % (count as u64)) as int;
                match scan_cached(plan.images@, index.resources@, start, 0) {
                    None => None,
                    Some(offset) => {
                        let image_index = rotated_index(start, offset, count as int);
                        Some(
                            DisplayItem {
                                plan_id: plan.id,
                                plan_content_hash: Some(snapshot.content_hash),
                                date,
                                image_sha256: plan.images@[image_index],
                                image_index: image_index as usize,
                                caption: plan.caption,
                            },
                        )
                    },
                }
            }
        },
    }
}

proof fn lemma_plan_for_date(plans: Seq<PlanItem>, date: LocalDate, p: int)
    requires
        0 <= p < plans.len(),
        plan_covers(plans[p], date),
        forall|j: int| 0 <= j < p ==> !plan_covers(#[trigger] plans[j], date),
    ensures
        spec_plan_for_date(plans, date) == Some(p),
{
    let chosen = spec_plan_for_date(plans, date)->0;
    assert(spec_plan_for_date(plans, date) is Some);
    if chosen < p {
        assert(!plan_covers(plans[chosen], date));
    } else if chosen > p {
        assert(!plan_covers(plans[p], date));
    }
}

/// The photo for `date`, when one of its plan's images is on the card.
pub fn select_usable_display_item(
    snapshot: &PlanSnapshot,
    resource_index: &ResourceIndex,
    date: LocalDate,
    rotation_slot: u64,
) -> (item: Option<DisplayItem>)
    ensures
        item == spec_usable_item(*snapshot, *resource_index, date, rotation_slot),
{
    let p = match select_plan_item_for_date(&snapshot.plans, date) {
        Some(p) => p,
        None => {
            return None;
        },
    };
    proof {
        lemma_plan_for_date(snapshot.plans@, date, p as int);
    }
    let plan = &snapshot.plans[p];
    let count = plan.images.len();
    if count == 0 {
        return None;
    }
    let start = (rotation_slot % (count as u64)) as usize;
    let mut offset: usize = 0;
    while offset < count
        invariant
            p < snapshot.plans@.len(),
            spec_plan_for_date(snapshot.plans@, date) == Some(p as int),
            *plan == snapshot.plans@[p as int],
            count == plan.images@.len(),
            count > 0,
            start == (rotation_slot % (count as u64)) as int,
            start < count,
            offset <= count,
            scan_cached(plan.images@, resource_index.resources@, start as int, 0) == scan_cached(
                plan.images@,
                resource_index.resources@,
                start as int,
                offset as int,
            ),
        decreases count - offset,
    {
        let image_index = if offset < count - start {
            start + offset
        } else {
            offset - (count - start)
        };
        assert(image_index == rotated_index(start as int, offset as int, count as int)) by {
            let sum = start + offset;
            if sum < count {
                assert(sum % (count as int) == sum) by (nonlinear_arith)
                    requires
                        0 <= sum < count,
                ;
            } else {
                assert(sum % (count as int) == sum - count) by (nonlinear_arith)
                    requires
                        count <= sum < 2 * count,
                ;
            }
        }
        if resource_index.contains(plan.images[image_index].as_str()) {
            let item = DisplayItem {
                plan_id: plan.id,
                plan_content_hash: Some(snapshot.content_hash.clone()),
                date,
                image_sha256: plan.images[image_index].clone(),
                image_index,
                caption: plan.caption.clone(),
            };
            assert(scan_cached(plan.images@, resource_index.resources@, start as int, offset as int) == Some(
                offset as int,
            ));
            return Some(item);
        }
        offset = offset + 1;
    }
    None
}

/// Why no photo can be shown for `date`.
pub open spec fn spec_no_usable_photo_reason(snapshot: PlanSnapshot, date: LocalDate) -> NoUsablePhotoReason {
    match spec_plan_for_date(snapshot.plans@, date) {
        None => NoUsablePhotoReason::NoPlanForDate,
        Some(p) => if snapshot.plans@[p].images@.len() == 0 {
            NoUsablePhotoReason::PlanHasNoImages
        } else {
            NoUsablePhotoReason::ResourceNotCached
        },
    }
}

fn no_usable_photo_reason(snapshot: &PlanSnapshot, date: LocalDate) -> (reason: NoUsablePhotoReason)
    ensures
        reason == spec_no_usable_photo_reason(*snapshot, date),
{
    match select_plan_item_for_date(&snapshot.plans, date) {
        None => NoUsablePhotoReason::NoPlanForDate,
        Some(p) => {
            proof {
                let plans = snapshot.plans@;
                assert(plan_covers(plans[p as int], date));
                let chosen = spec_plan_for_date(plans, date)->0;
                assert(chosen == p) by {
                    if chosen < p {
                        assert(!plan_covers(plans[chosen], date));
                    } else if chosen > p {
                        assert(!plan_covers(plans[p as int], date));
                    }
                }
            }
            if snapshot.plans[p].images.len() == 0 {
                NoUsablePhotoReason::PlanHasNoImages
            } else {
                NoUsablePhotoReason::ResourceNotCached
            }
        },
    }
}

/// The screen must be redrawn unless it already shows the item's plan, date,
/// image and caption.
pub open spec fn spec_display_needs_refresh(previous: Option<DisplayState>, item: DisplayItem) -> bool {
    match previous {
        None => true,
        Some(state) => !(state.plan_id == Some(item.plan_id) && state.date == Some(item.date) && (
        state.image_sha256 matches Some(image) && image@ == item.image_sha256@) && (state.caption matches Some(
            caption,
        ) && caption@ == item.caption@)),
    }
}

pub fn display_item_needs_refresh(previous: Option<&DisplayState>, item: &DisplayItem) -> (refresh: bool)
    ensures
        refresh == spec_display_needs_refresh(
            match previous {
                Some(state) => Some(*state),
                None => None,
            },
            *item,
        ),
{
    match previous {
        None => true,
        Some(state) => {
            let same_plan = match state.plan_id {
                Some(id) => id == item.plan_id,
                None => false,
            };
            let same_date = match state.date {
                Some(date) => date == item.date,
                None => false,
            };
            let same_image = match &state.image_sha256 {
                Some(image) => *image == item.image_sha256,
                None => false,
            };
            let same_caption = match &state.caption {
                Some(caption) => *caption == item.caption,
                None => false,
            };
            !(same_plan && same_date && same_image && same_caption)
        },
    }
}

/// The decision for a catalogue: a photo must be shown when the screen does
/// not show it yet (first boot when nothing was shown, else a change of item),
/// otherwise the device sleeps.
pub open spec fn decision_for_item(item: DisplayItem, previous: Option<DisplayState>) -> DisplayDecision {
    let display_state = DisplayState::spec_from_item(item);
    if spec_display_needs_refresh(previous, item) {
        DisplayDecision::RefreshRequired {
            item,
            display_state,
            reason: if previous matches Some(state) && state.image_sha256 is Some {
                RefreshReason::DisplayItemChanged
            } else {
                RefreshReason::FirstBoot
            },
        }
    } else {
        DisplayDecision::SleepOnly { display_state }
    }
}

/// The decision for `date`: no usable photo when none of the covering plan's
/// images is on the card, else the decision for the photo found.
pub open spec fn spec_display_decision(
    snapshot: PlanSnapshot,
    index: ResourceIndex,
    date: LocalDate,
    rotation_slot: u64,
    previous_state: Option<&DeviceRecord>,
) -> DisplayDecision {
    let previous = match previous_state {
        Some(record) => Some(record.current_display),
        None => None,
    };
    match spec_usable_item(snapshot, index, date, rotation_slot) {
        None => DisplayDecision::NoUsablePhoto(spec_no_usable_photo_reason(snapshot, date)),
        Some(item) => decision_for_item(item, previous),
    }
}

/// Decides what to show for `date` from a catalogue.
pub fn generate_display_decision_from_snapshot(
    snapshot: &PlanSnapshot,
    resource_index: &ResourceIndex,
    date: LocalDate,
    rotation_slot: u64,
    previous_state: Option<&DeviceRecord>,
) -> (decision: DisplayDecision)
    ensures
        decision == spec_display_decision(*snapshot, *resource_index, date, rotation_slot, previous_state),
{
    let item = match select_usable_display_item(snapshot, resource_index, date, rotation_slot) {
        Some(item) => item,
        None => {
            return DisplayDecision::NoUsablePhoto(no_usable_photo_reason(snapshot, date));
        },
    };
    let previous_display: Option<DisplayState> = match previous_state {
        Some(record) => Some(record.display_state()),
        None => None,
    };
    let display_state = DisplayState::from_item(&item);
    let needs_refresh = match &previous_display {
        Some(state) => display_item_needs_refresh(Some(state), &item),
        None => display_item_needs_refresh(None, &item),
    };
    if needs_refresh {
        let had_image = match &previous_display {
            Some(state) => state.image_sha256.is_some(),
            None => false,
        };
        let reason = if had_image {
            RefreshReason::DisplayItemChanged
        } else {
            RefreshReason::FirstBoot
        };
        return DisplayDecision::RefreshRequired { item, display_state, reason };
    }
    DisplayDecision::SleepOnly { display_state }
}

/// Decides what to show; without a catalogue the device is not set up.
pub fn generate_display_decision(
    snapshot: Option<&PlanSnapshot>,
    resource_index: &ResourceIndex,
    date: LocalDate,
    rotation_slot: u64,
    previous_state: Option<&DeviceRecord>,
) -> (decision: DisplayDecision)
    ensures
        snapshot is None ==> decision == DisplayDecision::MissingConfig,
        snapshot matches Some(snapshot) ==> decision == spec_display_decision(
            *snapshot,
            *resource_index,
            date,
            rotation_slot,
            previous_state,
        ),
{
    match snapshot {
        None => DisplayDecision::MissingConfig,
        Some(snapshot) => generate_display_decision_from_snapshot(
            snapshot,
            resource_index,
            date,
            rotation_slot,
            previous_state,
        ),
    }
}

} // verus!
