use crate::app::{
    generate_display_decision, spec_display_decision, DisplayDecision, NoUsablePhotoReason, RunOutcome,
    RunTrigger,
};
use crate::cache::{missing_resources, spec_missing};
use crate::config::Config;
use crate::model::{
    plan_images, same_plan_items, spec_touch, spec_upsert, string_views, CachedResource, DisplayItem, DisplayState,
    LocalDate, PlanSnapshot, ResourceIndex,
};
use crate::power::BatteryStatus;
use crate::scripted::{ScriptedDisplay, ScriptedSync};
use crate::state::{CacheState, DeviceRecord, RefreshReason};
use std::fmt;
use vstd::prelude::*;

verus! {

/// Everything one wake-up of the catalogue device starts from.
#[derive(Debug, PartialEq, Eq)]
pub struct DeviceCycleInput {
    pub config: Option<Config>,
    pub snapshot: Option<PlanSnapshot>,
    pub resource_index: ResourceIndex,
    pub persistent_state: DeviceRecord,
    pub trigger: RunTrigger,
    pub now_epoch_seconds: u64,
    pub date: LocalDate,
    pub rotation_slot: u64,
    pub battery: BatteryStatus,
    pub daily_sync_due: bool,
}

/// What the device asks the cloud for: the plans it has and the images it lacks.
#[derive(Debug, PartialEq, Eq)]
pub struct SyncRequest {
    pub config: Config,
    pub local_snapshot: Option<PlanSnapshot>,
    pub resource_index: ResourceIndex,
    pub missing_resources: Vec<String>,
    pub force: bool,
    pub now_epoch_seconds: u64,
}

/// What the cloud answered: the current plans and the images it sent.
#[derive(Debug, PartialEq, Eq)]
pub struct SyncResult {
    pub snapshot: PlanSnapshot,
    pub resources: Vec<CachedResource>,
}

/// The cloud side of a catalogue device cycle, implemented by the platform.
pub trait DeviceCloudSync {
    type Error: fmt::Display;

    /// The requests the sync was handed so far, in order.
    spec fn requests(&self) -> Seq<SyncRequest>;

    /// The answers the sync gave so far, in order.
    spec fn replies(&self) -> Seq<Result<SyncResult, Self::Error>>;

    fn sync_resources(&mut self, request: SyncRequest) -> (result: Result<SyncResult, Self::Error>)
        ensures
            final(self).requests() == old(self).requests().push(request),
            final(self).replies() == old(self).replies().push(result),
    ;
}

/// The catalogue after a sync recorded what it received, in order, each entry
/// last used now.
pub open spec fn spec_record_received(
    resources: Seq<CachedResource>,
    received: Seq<CachedResource>,
    now: u64,
) -> Seq<CachedResource>
    decreases received.len(),
{
    if received.len() == 0 {
        resources
    } else {
        let last = received.last();
        spec_upsert(
            spec_record_received(resources, received.drop_last(), now),
            CachedResource { sha256: last.sha256, byte_size: last.byte_size, last_used_at_unix_secs: now },
        )
    }
}

/// The catalogue a cycle decides with: what it started from, with what the
/// sync's last answer received recorded after a successful sync.
pub open spec fn index_after_sync<E>(
    input: DeviceCycleInput,
    sync_succeeded: bool,
    replies: Seq<Result<SyncResult, E>>,
) -> Seq<CachedResource> {
    if sync_succeeded {
        spec_record_received(
            input.resource_index.resources@,
            replies.last()->Ok_0.resources@,
            input.now_epoch_seconds,
        )
    } else {
        input.resource_index.resources@
    }
}

/// A request to show a photo of the catalogue.
#[derive(Debug, PartialEq, Eq)]
pub struct DisplayRefreshRequest {
    pub item: DisplayItem,
    pub display_state: DisplayState,
    pub reason: RefreshReason,
    pub now_epoch_seconds: u64,
}

/// The panel side of a catalogue device cycle, implemented by the platform.
pub trait DeviceDisplay {
    type Error: fmt::Display;

    /// The photos the display was asked to show so far, in order.
    spec fn requests(&self) -> Seq<DisplayRefreshRequest>;

    /// The display's answer to each request so far, in order.
    spec fn answers(&self) -> Seq<Result<(), Self::Error>>;

    fn refresh(&mut self, request: DisplayRefreshRequest) -> (result: Result<(), Self::Error>)
        ensures
            final(self).requests() == old(self).requests().push(request),
            final(self).answers() == old(self).answers().push(result),
    ;
}

/// Everything one wake-up of the catalogue device ends with.
#[derive(Debug, PartialEq, Eq)]
pub struct DeviceCycleResult {
    pub snapshot: Option<PlanSnapshot>,
    pub resource_index: ResourceIndex,
    pub persistent_state: DeviceRecord,
    pub display_decision: DisplayDecision,
    pub outcome: DeviceCycleOutcome,
    pub sync_attempted: bool,
    pub sync_succeeded: bool,
    pub daily_sync_consumed: bool,
    pub force_sync: bool,
    pub refresh_attempted: bool,
    pub refresh_succeeded: bool,
}

/// How a wake-up of the catalogue device ended.
#[derive(Clone, Copy, Debug, PartialEq, Eq, Structural)]
pub enum DeviceCycleOutcome {
    MissingConfig,
    SyncRequested,
    RefreshOnly,
    SleepOnly,
    LowBatterySkipSync,
    SyncFailed,
    RefreshFailed,
    NoUsablePhoto(NoUsablePhotoReason),
}

pub open spec fn spec_outcome_of_run(outcome: RunOutcome) -> DeviceCycleOutcome {
    match outcome {
        RunOutcome::SyncRequested => DeviceCycleOutcome::SyncRequested,
        RunOutcome::RefreshOnly => DeviceCycleOutcome::RefreshOnly,
        RunOutcome::SleepOnly => DeviceCycleOutcome::SleepOnly,
        RunOutcome::LowBatterySkipSync => DeviceCycleOutcome::LowBatterySkipSync,
    }
}

impl From<RunOutcome> for DeviceCycleOutcome {
    fn from(outcome: RunOutcome) -> (result: Self) {
        match outcome {
            RunOutcome::SyncRequested => DeviceCycleOutcome::SyncRequested,
            RunOutcome::RefreshOnly => DeviceCycleOutcome::RefreshOnly,
            RunOutcome::SleepOnly => DeviceCycleOutcome::SleepOnly,
            RunOutcome::LowBatterySkipSync => DeviceCycleOutcome::LowBatterySkipSync,
        }
    }
}

impl vstd::std_specs::convert::FromSpecImpl<RunOutcome> for DeviceCycleOutcome {
    open spec fn obeys_from_spec() -> bool {
        true
    }

    open spec fn from_spec(outcome: RunOutcome) -> Self {
        spec_outcome_of_run(outcome)
    }
}

/// The bytes the cached images take, counted up to the largest `u64`.
pub open spec fn total_bytes(resources: Seq<CachedResource>) -> int
    decreases resources.len(),
{
    if resources.len() == 0 {
        0
    } else {
        let sum = total_bytes(resources.drop_last()) + resources.last().byte_size;
        if sum > u64::MAX {
            u64::MAX as int
        } else {
            sum
        }
    }
}

/// The cache state of a set of cached images.
pub open spec fn spec_cache_state(resources: Seq<CachedResource>) -> CacheState {
    CacheState { resource_count: resources.len() as u32, used_bytes: total_bytes(resources) as u64 }
}

/// Records in `state` how many images the card holds and how many bytes they take.
pub fn update_cache_state(state: &mut DeviceRecord, resource_index: &ResourceIndex)
    ensures
        *final(state) == (DeviceRecord { cache: spec_cache_state(resource_index.resources@), ..*old(state) }),
{
    let resources = &resource_index.resources;
    let mut used: u64 = 0;
    let mut i: usize = 0;
    while i < resources.len()
        invariant
            i <= resources@.len(),
            used == total_bytes(resources@.subrange(0, i as int)),
        decreases resources@.len() - i,
    {
        proof {
            assert(resources@.subrange(0, i + 1).drop_last() =~= resources@.subrange(0, i as int));
        }
        used = used.saturating_add(resources[i].byte_size);
        i = i + 1;
    }
    assert(resources@.subrange(0, resources@.len() as int) =~= resources@);
    state.cache = CacheState { resource_count: resources.len() as u32, used_bytes: used };
}

/// How a wake-up ended: a missing configuration first, then a sync skipped for
/// a low battery, a failed refresh, a failed sync, and otherwise what the
/// display decision says.
pub open spec fn spec_cycle_outcome(
    decision: DisplayDecision,
    config_usable: bool,
    sync_requested: bool,
    low_battery: bool,
    sync_failed: bool,
    refresh_failed: bool,
) -> DeviceCycleOutcome {
    if !config_usable {
        DeviceCycleOutcome::MissingConfig
    } else if sync_requested && low_battery {
        DeviceCycleOutcome::LowBatterySkipSync
    } else if refresh_failed {
        DeviceCycleOutcome::RefreshFailed
    } else if sync_failed {
        DeviceCycleOutcome::SyncFailed
    } else {
        match decision {
            DisplayDecision::MissingConfig => DeviceCycleOutcome::MissingConfig,
            DisplayDecision::NoUsablePhoto(reason) => DeviceCycleOutcome::NoUsablePhoto(reason),
            DisplayDecision::RefreshRequired { .. } => DeviceCycleOutcome::RefreshOnly,
            DisplayDecision::SleepOnly { .. } => if sync_requested {
                DeviceCycleOutcome::SyncRequested
            } else {
                DeviceCycleOutcome::SleepOnly
            },
        }
    }
}

pub open spec fn spec_config_usable(config: Option<Config>) -> bool {
    config matches Some(config) && config.spec_has_required_values()
}

fn cycle_outcome(
    decision: &DisplayDecision,
    config: Option<&Config>,
    sync_requested: bool,
    low_battery: bool,
    sync_failed: bool,
    refresh_failed: bool,
    refresh_attempted: bool,
) -> (outcome: DeviceCycleOutcome)
    ensures
        outcome == spec_cycle_outcome(
            *decision,
            config matches Some(config) && config.spec_has_required_values(),
            sync_requested,
            low_battery,
            sync_failed,
            refresh_failed,
        ),
{
    let usable = match config {
        Some(config) => config.has_required_values(),
        None => false,
    };
    if !usable {
        return DeviceCycleOutcome::MissingConfig;
    }
    if sync_requested && low_battery {
        return DeviceCycleOutcome::LowBatterySkipSync;
    }
    if refresh_failed {
        return DeviceCycleOutcome::RefreshFailed;
    }
    if sync_failed {
        return DeviceCycleOutcome::SyncFailed;
    }
    match decision {
        DisplayDecision::MissingConfig => DeviceCycleOutcome::MissingConfig,
        DisplayDecision::NoUsablePhoto(reason) => DeviceCycleOutcome::NoUsablePhoto(*reason),
        DisplayDecision::RefreshRequired { .. } => {
            if refresh_attempted {
                DeviceCycleOutcome::RefreshOnly
            } else {
                DeviceCycleOutcome::RefreshOnly
            }
        },
        DisplayDecision::SleepOnly { .. } => {
            if sync_requested {
                DeviceCycleOutcome::SyncRequested
            } else {
                DeviceCycleOutcome::SleepOnly
            }
        },
    }
}

/// The images the cloud sent, each marked used at `now` and recorded in turn.
pub open spec fn upsert_all(resources: Seq<CachedResource>, received: Seq<CachedResource>, now: u64) -> Seq<CachedResource>
    decreases received.len(),
{
    if received.len() == 0 {
        resources
    } else {
        spec_upsert(
            upsert_all(resources, received.drop_last(), now),
            CachedResource { last_used_at_unix_secs: now, ..received.last() },
        )
    }
}

fn clone_snapshot(snapshot: &Option<PlanSnapshot>) -> (result: Option<PlanSnapshot>)
    ensures
        match (snapshot, result) {
            (Some(a), Some(b)) => a.content_hash == b.content_hash && same_plan_items(b.plans@, a.plans@),
            (None, None) => true,
            _ => false,
        },
{
    match snapshot {
        Some(snapshot) => Some(snapshot.clone()),
        None => None,
    }
}

/// `after` is `before` with one more request.
pub open spec fn one_more<T>(before: Seq<T>, after: Seq<T>) -> bool {
    after.len() == before.len() + 1 && after.take(before.len() as int) == before
}

/// The request handed to the sync: the configuration, the plans and the card
/// index the cycle started from, the images the plans lack, whether the run
/// was started by hand, and the time.
pub open spec fn catalogue_request_handed(request: SyncRequest, input: DeviceCycleInput) -> bool {
    &&& input.config == Some(request.config)
    &&& match (request.local_snapshot, input.snapshot) {
        (Some(sent), Some(held)) => sent.content_hash == held.content_hash && same_plan_items(
            sent.plans@,
            held.plans@,
        ) && string_views(request.missing_resources@) == spec_missing(plan_images(held.plans@), input.resource_index.resources@),
        (None, None) => request.missing_resources@.len() == 0,
        _ => false,
    }
    &&& request.resource_index.resources@ == input.resource_index.resources@
    &&& request.force == (input.trigger == RunTrigger::Manual)
    &&& request.now_epoch_seconds == input.now_epoch_seconds
}

/// One wake-up of the catalogue device: sync with the cloud when asked (by
/// hand or because the daily sync is due) unless the battery is low or the
/// configuration is incomplete, record the images received, decide what to
/// show, refresh the panel when needed, and say how the wake-up ended.
pub fn run_device_cycle<S: DeviceCloudSync, D: DeviceDisplay>(
    input: DeviceCycleInput,
    sync: &mut S,
    display: &mut D,
) -> (result: DeviceCycleResult)
    ensures
        ({
            let sync_requested = input.trigger == RunTrigger::Manual || input.daily_sync_due;
            let usable = spec_config_usable(input.config);
            &&& result.force_sync == (input.trigger == RunTrigger::Manual)
            &&& result.sync_attempted == (sync_requested && !input.battery.low_battery && usable)
            &&& (result.sync_succeeded ==> result.sync_attempted)
            &&& result.daily_sync_consumed == (result.sync_succeeded && input.daily_sync_due
                && input.trigger != RunTrigger::Manual)
            &&& result.persistent_state.last_wake_reason == Some(input.trigger.spec_wake_reason())
            &&& (!result.sync_succeeded ==> result.snapshot == input.snapshot)
            &&& (result.sync_succeeded ==> result.snapshot is Some
                && result.persistent_state.last_successful_sync_epoch_seconds == Some(input.now_epoch_seconds))
            &&& (sync_requested && !input.battery.low_battery && !usable && !result.refresh_attempted ==> (result.persistent_state.last_sync_error
                matches Some(error) && error@ == "missing or incomplete config"@))
            &&& result.refresh_attempted == (result.display_decision is RefreshRequired)
            &&& (result.refresh_succeeded ==> result.refresh_attempted)
            &&& (result.refresh_succeeded ==> (result.display_decision matches DisplayDecision::RefreshRequired {
                item,
                display_state,
                reason,
            } && result.persistent_state.current_display == (DisplayState {
                refreshed_at_unix_secs: Some(input.now_epoch_seconds),
                ..display_state
            }) && result.persistent_state.last_refresh_reason == Some(reason)))
            &&& result.persistent_state.cache == spec_cache_state(result.resource_index.resources@)
            &&& result.outcome == spec_cycle_outcome(
                result.display_decision,
                usable,
                sync_requested,
                input.battery.low_battery,
                result.sync_attempted && !result.sync_succeeded,
                result.refresh_attempted && !result.refresh_succeeded,
            )
            &&& (result.sync_attempted ==> one_more(old(sync).requests(), final(sync).requests())
                && catalogue_request_handed(final(sync).requests().last(), input))
            &&& (!result.sync_attempted ==> final(sync).requests() == old(sync).requests())
            &&& (result.refresh_attempted ==> one_more(old(display).requests(), final(display).requests())
                && match result.display_decision {
                DisplayDecision::RefreshRequired { item, display_state, reason } => {
                    let request = final(display).requests().last();
                    &&& request.item == item
                    &&& request.display_state == (DisplayState {
                        refreshed_at_unix_secs: Some(input.now_epoch_seconds),
                        ..display_state
                    })
                    &&& request.reason == reason
                    &&& request.now_epoch_seconds == input.now_epoch_seconds
                },
                _ => false,
            })
            &&& (!result.refresh_attempted ==> final(display).requests() == old(display).requests())
            &&& (result.refresh_attempted ==> one_more(old(display).answers(), final(display).answers()) && (
            result.refresh_succeeded <==> final(display).answers().last() is Ok))
            &&& (!result.refresh_attempted ==> final(display).answers() == old(display).answers())
            &&& (result.refresh_attempted && !result.refresh_succeeded ==> kept_error_text(
                &final(display).answers().last()->Err_0,
                result.persistent_state.last_sync_error,
            ))
            &&& (result.sync_attempted && !result.sync_succeeded && !(result.refresh_attempted
                && !result.refresh_succeeded) ==> kept_error_text(
                &final(sync).replies().last()->Err_0,
                result.persistent_state.last_sync_error,
            ))
            &&& (result.sync_attempted ==> one_more(old(sync).replies(), final(sync).replies()) && (
            result.sync_succeeded <==> final(sync).replies().last() is Ok))
            &&& (!result.sync_attempted ==> final(sync).replies() == old(sync).replies())
            &&& (result.sync_succeeded ==> result.snapshot == Some(final(sync).replies().last()->Ok_0.snapshot))
            &&& exists|index_used: ResourceIndex|
                {
                    &&& index_used.resources@ == index_after_sync(input, result.sync_succeeded, final(sync).replies())
                    &&& result.display_decision == spec_display_decision(
                        result.snapshot->0,
                        index_used,
                        input.date,
                        input.rotation_slot,
                        Some(&input.persistent_state),
                    ) || result.snapshot is None
                    &&& (result.snapshot is None ==> result.display_decision == DisplayDecision::MissingConfig)
                    &&& result.resource_index.resources@ == (match result.display_decision {
                        DisplayDecision::RefreshRequired { item, .. } => if result.refresh_succeeded {
                            spec_touch(index_used.resources@, item.image_sha256@, input.now_epoch_seconds)
                        } else {
                            index_used.resources@
                        },
                        _ => index_used.resources@,
                    })
                }
        }),
{
    let DeviceCycleInput {
        config,
        snapshot,
        resource_index,
        persistent_state,
        trigger,
        now_epoch_seconds,
        date,
        rotation_slot,
        battery,
        daily_sync_due,
    } = input;
    let mut snapshot = snapshot;
    let mut resource_index = resource_index;
    let mut persistent_state = persistent_state;
    let wake_reason = trigger.wake_reason();
    persistent_state.last_wake_reason = Some(wake_reason);
    let force_sync = match trigger {
        RunTrigger::Manual => true,
        _ => false,
    };
    let sync_requested = force_sync || daily_sync_due;
    let mut sync_attempted = false;
    let mut sync_succeeded = false;
    let mut daily_sync_consumed = false;
    let mut sync_failed = false;
    if sync_requested && !battery.low_battery {
        let usable = match &config {
            Some(config) => config.has_required_values(),
            None => false,
        };
        if usable {
            let config_value = match &config {
                Some(config) => config.clone(),
                None => {
                    proof {
                        assert(false);
                    }
                    Config {
                        wifi_ssid: String::new(),
                        wifi_password: String::new(),
                        base_url: String::new(),
                        secret_key: String::new(),
                    }
                },
            };
            sync_attempted = true;
            let missing: Vec<String> = match &snapshot {
                Some(snapshot) => missing_resources(snapshot, &resource_index),
                None => Vec::new(),
            };
            let request = SyncRequest {
                config: config_value,
                local_snapshot: clone_snapshot(&snapshot),
                resource_index: resource_index.clone(),
                missing_resources: missing,
                force: force_sync,
                now_epoch_seconds,
            };
            let ghost handed = request;
            let ghost before = sync.requests();
            let ghost replies_before = sync.replies();
            let answer = sync.sync_resources(request);
            proof {
                assert(sync.requests().take(before.len() as int) =~= before);
                assert(sync.requests().last() == handed);
                assert(sync.replies().take(replies_before.len() as int) =~= replies_before);
                assert(sync.replies().last() == answer);
            }
            match answer {
                Ok(sync_result) => {
                    let SyncResult { snapshot: received, resources } = sync_result;
                    snapshot = Some(received);
                    let ghost start = resource_index.resources@;
                    let mut i: usize = 0;
                    while i < resources.len()
                        invariant
                            i <= resources@.len(),
                            resource_index.resources@ == spec_record_received(
                                start,
                                resources@.take(i as int),
                                now_epoch_seconds,
                            ),
                        decreases resources@.len() - i,
                    {
                        assert(resources@.take(i + 1).drop_last() =~= resources@.take(i as int));
                        let resource = &resources[i];
                        resource_index.upsert(
                            CachedResource {
                                sha256: resource.sha256.clone(),
                                byte_size: resource.byte_size,
                                last_used_at_unix_secs: now_epoch_seconds,
                            },
                        );
                        i = i + 1;
                    }
                    assert(resources@.take(resources@.len() as int) =~= resources@);
                    persistent_state.last_successful_sync_epoch_seconds = Some(now_epoch_seconds);
                    persistent_state.last_sync_error = None;
                    sync_succeeded = true;
                    daily_sync_consumed = daily_sync_due && !force_sync;
                },
                Err(error) => {
                    assert(error == sync.replies().last()->Err_0);
                    persistent_state.last_sync_error = Some(error.to_string());
                    sync_failed = true;
                },
            }
        } else {
            persistent_state.last_sync_error = Some(String::from_str("missing or incomplete config"));
        }
    }
    update_cache_state(&mut persistent_state, &resource_index);
    let ghost index_used = resource_index;
    let decision = match &snapshot {
        Some(snapshot) => generate_display_decision(
            Some(snapshot),
            &resource_index,
            date,
            rotation_slot,
            Some(&persistent_state),
        ),
        None => generate_display_decision(None, &resource_index, date, rotation_slot, Some(&persistent_state)),
    };
    let ghost record_used = persistent_state;
    let mut refresh_attempted = false;
    let mut refresh_succeeded = false;
    let mut refresh_failed = false;
    match &decision {
        DisplayDecision::RefreshRequired { item, display_state, reason } => {
            refresh_attempted = true;
            let mut next_display_state = display_state.clone();
            next_display_state.refreshed_at_unix_secs = Some(now_epoch_seconds);
            let request = DisplayRefreshRequest {
                item: item.clone(),
                display_state: next_display_state.clone(),
                reason: *reason,
                now_epoch_seconds,
            };
            let ghost handed = request;
            let ghost before = display.requests();
            let ghost answers_before = display.answers();
            let answer = display.refresh(request);
            proof {
                assert(display.requests().take(before.len() as int) =~= before);
                assert(display.requests().last() == handed);
                assert(display.answers().take(answers_before.len() as int) =~= answers_before);
            }
            match answer {
                Ok(()) => {
                    persistent_state.set_current_display(&next_display_state);
                    persistent_state.last_refresh_reason = Some(*reason);
                    resource_index.touch(item.image_sha256.as_str(), now_epoch_seconds);
                    update_cache_state(&mut persistent_state, &resource_index);
                    refresh_succeeded = true;
                },
                Err(error) => {
                    assert(error == display.answers().last()->Err_0);
                    persistent_state.last_sync_error = Some(error.to_string());
                    refresh_failed = true;
                },
            }
        },
        _ => {},
    }
    let outcome = cycle_outcome(
        &decision,
        match &config {
            Some(config) => Some(config),
            None => None,
        },
        sync_requested,
        battery.low_battery,
        sync_failed,
        refresh_failed,
        refresh_attempted,
    );
    let result = DeviceCycleResult {
        snapshot,
        resource_index,
        persistent_state,
        display_decision: decision,
        outcome,
        sync_attempted,
        sync_succeeded,
        daily_sync_consumed,
        force_sync,
        refresh_attempted,
        refresh_succeeded,
    };
    assert({
        &&& index_used.resources@ == index_after_sync(input, result.sync_succeeded, sync.replies())
        &&& result.display_decision == spec_display_decision(
            result.snapshot->0,
            index_used,
            input.date,
            input.rotation_slot,
            Some(&input.persistent_state),
        ) || result.snapshot is None
        &&& (result.snapshot is None ==> result.display_decision == DisplayDecision::MissingConfig)
        &&& result.resource_index.resources@ == (match result.display_decision {
            DisplayDecision::RefreshRequired { item, .. } => if result.refresh_succeeded {
                spec_touch(index_used.resources@, item.image_sha256@, input.now_epoch_seconds)
            } else {
                index_used.resources@
            },
            _ => index_used.resources@,
        })
    });
    result
}

/// The error text a cycle keeps is `error`'s display text.
pub open spec fn kept_error_text<E: fmt::Display>(error: &E, text: Option<String>) -> bool {
    match text {
        Some(text) => vstd::string::to_string_from_display_ensures::<E>(error, text),
        None => false,
    }
}

impl<E: fmt::Display + From<&'static str>> DeviceCloudSync for ScriptedSync<SyncRequest, SyncResult, E> {
    type Error = E;

    open spec fn requests(&self) -> Seq<SyncRequest> {
        self.requests@
    }

    open spec fn replies(&self) -> Seq<Result<SyncResult, E>> {
        self.replies@
    }

    fn sync_resources(&mut self, request: SyncRequest) -> (result: Result<SyncResult, E>) {
        self.answer(request)
    }
}

impl<E: fmt::Display> DeviceDisplay for ScriptedDisplay<DisplayRefreshRequest, E> {
    type Error = E;

    open spec fn requests(&self) -> Seq<DisplayRefreshRequest> {
        self.requests@
    }

    open spec fn answers(&self) -> Seq<Result<(), E>> {
        self.answers@
    }

    fn refresh(&mut self, request: DisplayRefreshRequest) -> (result: Result<(), E>) {
        self.answer_photo(request)
    }
}

} // verus!
