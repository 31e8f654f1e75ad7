use crate::app::RunTrigger;
use crate::config::Config;
use crate::model::{string_views, LocalDate, Plan};
use crate::power::{BatteryStatus, PowerProfile};
use crate::scripted::{ScriptedDisplay, ScriptedSync};
use crate::schedule::{select_plan_for_date, selected_plan_index};
use crate::state::{PersistentDeviceState, PersistentSyncState, RefreshReason};
use crate::text::{ascii_upper, to_ascii_uppercase};
use std::fmt;
use vstd::prelude::*;

verus! {

pub open spec fn opt_plans(plans: Option<Vec<Plan>>) -> Option<Seq<Plan>> {
    match plans {
        Some(plans) => Some(plans@),
        None => None,
    }
}

pub fn clone_plan_list(plans: &Vec<Plan>) -> (result: Vec<Plan>)
    ensures
        result@ == plans@,
{
    let result = plans.clone();
    assert(result@ =~= plans@) by {
        assert forall|i: int| 0 <= i < plans@.len() implies result@[i] == plans@[i] by {
            assert(cloned::<Plan>(plans[i], result[i]));
        }
    }
    result
}

pub fn clone_plans(plans: &Option<Vec<Plan>>) -> (result: Option<Vec<Plan>>)
    ensures
        opt_plans(result) == opt_plans(*plans),
{
    match plans {
        Some(plans) => Some(clone_plan_list(plans)),
        None => None,
    }
}

pub fn clone_opt_string(value: &Option<String>) -> (result: Option<String>)
    ensures
        result == *value,
{
    match value {
        Some(value) => Some(value.clone()),
        None => None,
    }
}

/// Everything one wake-up of the device starts from.
#[derive(Debug, PartialEq, Eq)]
pub struct DeviceCycleInput {
    pub config: Option<Config>,
    pub plans: Option<Vec<Plan>>,
    pub persistent_state: PersistentDeviceState,
    pub persistent_state_loaded: bool,
    pub sync_state: PersistentSyncState,
    pub trigger: RunTrigger,
    pub now_epoch_seconds: u64,
    pub date: LocalDate,
    pub battery: BatteryStatus,
}

/// What the cloud sync is asked to do.
#[derive(Debug, PartialEq, Eq)]
pub struct SyncRequest {
    pub config: Config,
    pub local_plans: Option<Vec<Plan>>,
    pub date: LocalDate,
    pub now_epoch_seconds: u64,
}

/// What a successful cloud sync brings back.
#[derive(Debug, PartialEq, Eq)]
pub struct SyncResult {
    pub plans: Vec<Plan>,
    pub sprites: SpriteSet,
}

/// The overlay sprites that the server rendered for the current photo.
#[derive(Debug, PartialEq, Eq)]
pub struct SpriteSet {
    pub caption: Option<String>,
    pub date: Option<String>,
}

impl Default for SpriteSet {
    fn default() -> (result: Self)
        ensures
            result.caption is None,
            result.date is None,
    {
        SpriteSet { caption: None, date: None }
    }
}

impl Clone for SpriteSet {
    fn clone(&self) -> (result: Self)
        ensures
            result == *self,
    {
        SpriteSet { caption: clone_opt_string(&self.caption), date: clone_opt_string(&self.date) }
    }
}

/// Why the Wi-Fi connection could not be made.
#[derive(Clone, Copy, Debug, PartialEq, Eq, Structural)]
pub enum WifiConnectError {
    InitError,
    ConfigError,
    StartError,
    ScanError,
    TargetNotFound,
    ConnectError,
    NetifError,
}

impl WifiConnectError {
    pub open spec fn spec_code(self) -> Seq<char> {
        match self {
            WifiConnectError::InitError => "init"@,
            WifiConnectError::ConfigError => "config"@,
            WifiConnectError::StartError => "start"@,
            WifiConnectError::ScanError => "scan"@,
            WifiConnectError::TargetNotFound => "target-not-found"@,
            WifiConnectError::ConnectError => "connect"@,
            WifiConnectError::NetifError => "netif"@,
        }
    }

    /// The short code of the failure within the Wi-Fi category.
    pub fn code(self) -> (code: &'static str)
        ensures
            code@ == self.spec_code(),
    {
        match self {
            WifiConnectError::InitError => "init",
            WifiConnectError::ConfigError => "config",
            WifiConnectError::StartError => "start",
            WifiConnectError::ScanError => "scan",
            WifiConnectError::TargetNotFound => "target-not-found",
            WifiConnectError::ConnectError => "connect",
            WifiConnectError::NetifError => "netif",
        }
    }

    pub open spec fn spec_name(self) -> Seq<char> {
        match self {
            WifiConnectError::InitError => "InitError"@,
            WifiConnectError::ConfigError => "ConfigError"@,
            WifiConnectError::StartError => "StartError"@,
            WifiConnectError::ScanError => "ScanError"@,
            WifiConnectError::TargetNotFound => "TargetNotFound"@,
            WifiConnectError::ConnectError => "ConnectError"@,
            WifiConnectError::NetifError => "NetifError"@,
        }
    }

    /// The failure's name, as the detail of its report.
    pub fn name(self) -> (name: &'static str)
        ensures
            name@ == self.spec_name(),
    {
        match self {
            WifiConnectError::InitError => "InitError",
            WifiConnectError::ConfigError => "ConfigError",
            WifiConnectError::StartError => "StartError",
            WifiConnectError::ScanError => "ScanError",
            WifiConnectError::TargetNotFound => "TargetNotFound",
            WifiConnectError::ConnectError => "ConnectError",
            WifiConnectError::NetifError => "NetifError",
        }
    }

    /// The report of a failed Wi-Fi connection: code `wifi.` and the failure's
    /// code, category and stage `wifi`, a fixed message, and the failure's name.
    pub fn report(self) -> (report: SyncErrorReport)
        ensures
            report.code@ == "wifi."@ + self.spec_code(),
            report.category@ == "wifi"@,
            report.stage matches Some(stage) && stage@ == "wifi"@,
            report.message@ == "wifi connection failed"@,
            report.detail@ == self.spec_name(),
    {
        let mut code = String::from_str("wifi.");
        code.append(self.code());
        SyncErrorReport::new(
            code.as_str(),
            "wifi",
            Some(String::from_str("wifi")),
            "wifi connection failed",
            self.name(),
        )
    }
}

/// The cloud side of a device cycle, implemented by the platform.
pub trait DeviceCloudSync {
    type Error: fmt::Display;

    /// The requests the sync was handed so far, in order.
    spec fn requests(&self) -> Seq<SyncRequest>;

    /// The answers the sync gave so far, in order.
    spec fn replies(&self) -> Seq<Result<SyncResult, Self::Error>>;

    fn sync_resources(&mut self, request: SyncRequest) -> (result: Result<SyncResult, Self::Error>)
        ensures
            final(self).requests() == old(self).requests().push(request),
            final(self).replies() == old(self).replies().push(result),
    ;

    /// Whether `report` is how this sync describes the failure `error`.
    spec fn describes(&self, error: Self::Error, report: SyncErrorReport) -> bool;

    /// The report of a failed sync, for the diagnostic log and the error page.
    fn describe_error(&self, error: &Self::Error) -> (report: SyncErrorReport)
        ensures
            self.describes(*error, report),
    ;
}

/// A request to draw a photo with its overlays.
#[derive(Debug, PartialEq, Eq)]
pub struct DisplayRefreshRequest {
    pub plan: Plan,
    pub date: LocalDate,
    pub reason: RefreshReason,
    pub sprites: SpriteSet,
    pub now_epoch_seconds: u64,
}

/// A request to draw a full-screen error page.
#[derive(Debug, PartialEq, Eq)]
pub struct ErrorRefreshRequest {
    pub title: String,
    pub message: String,
    pub hint: String,
    pub detail: String,
    pub now_epoch_seconds: u64,
}

/// The panel side of a device cycle, implemented by the platform.
pub trait DeviceDisplay {
    type Error: fmt::Display;

    /// The photo pages the display was asked to draw so far, in order.
    spec fn photo_requests(&self) -> Seq<DisplayRefreshRequest>;

    /// The full-screen pages the display was asked to draw so far, in order.
    spec fn page_requests(&self) -> Seq<ErrorRefreshRequest>;

    fn refresh(&mut self, request: DisplayRefreshRequest) -> (result: Result<(), Self::Error>)
        ensures
            final(self).photo_requests() == old(self).photo_requests().push(request),
            final(self).page_requests() == old(self).page_requests(),
            final(self).answers() == old(self).answers().push(result),
    ;

    fn refresh_error_page(&mut self, request: ErrorRefreshRequest) -> (result: Result<(), Self::Error>)
        ensures
            final(self).page_requests() == old(self).page_requests().push(request),
            final(self).photo_requests() == old(self).photo_requests(),
            final(self).answers() == old(self).answers().push(result),
    ;

    /// The answers the display gave so far to the pages it was asked to draw,
    /// photo pages and full-screen pages alike, in order.
    spec fn answers(&self) -> Seq<Result<(), Self::Error>>;

    /// Whether the display holds the photo `sha256` ready to be drawn.
    spec fn holds_image(&self, sha256: Seq<char>) -> bool;

    fn has_image(&self, sha256: &str) -> (found: bool)
        ensures
            found == self.holds_image(sha256@),
    ;
}

/// Everything one wake-up of the device ends with.
#[derive(Debug, PartialEq, Eq)]
pub struct DeviceCycleResult {
    pub plans: Option<Vec<Plan>>,
    pub persistent_state: PersistentDeviceState,
    pub sync_state: PersistentSyncState,
    pub battery: BatteryStatus,
    pub sync_decision: SyncDecision,
    pub display_decision: DisplayDecision,
    pub outcome: DeviceCycleOutcome,
    pub sync_attempted: bool,
    pub sync_succeeded: bool,
    pub sync_error: Option<String>,
    pub sync_error_report: Option<SyncErrorReport>,
    pub refresh_attempted: bool,
    pub refresh_succeeded: bool,
    pub display_available: bool,
}

/// A failure described for the diagnostic log and the error page.
#[derive(Debug, PartialEq, Eq)]
pub struct SyncErrorReport {
    pub code: String,
    pub category: String,
    pub stage: Option<String>,
    pub message: String,
    pub detail: String,
}

impl Clone for SyncErrorReport {
    fn clone(&self) -> (result: Self)
        ensures
            result == *self,
    {
        SyncErrorReport {
            code: self.code.clone(),
            category: self.category.clone(),
            stage: clone_opt_string(&self.stage),
            message: self.message.clone(),
            detail: self.detail.clone(),
        }
    }
}

impl SyncErrorReport {
    pub fn new(code: &str, category: &str, stage: Option<String>, message: &str, detail: &str) -> (result: Self)
        ensures
            result.code@ == code@,
            result.category@ == category@,
            result.stage == stage,
            result.message@ == message@,
            result.detail@ == detail@,
    {
        SyncErrorReport {
            code: code.to_owned(),
            category: category.to_owned(),
            stage,
            message: message.to_owned(),
            detail: detail.to_owned(),
        }
    }

    /// The report for a sync failure that carries nothing but its text.
    pub fn from_display<E: fmt::Display>(error: &E) -> (result: Self)
        ensures
            result.code@ == "sync.error"@,
            result.category@ == "sync"@,
            result.stage is None,
            result.message@ == "CANNOT UPDATE SERVER DATA"@,
            vstd::string::to_string_from_display_ensures::<E>(error, result.detail),
    {
        let detail = error.to_string();
        SyncErrorReport {
            code: "sync.error".to_owned(),
            category: "sync".to_owned(),
            stage: None,
            message: "CANNOT UPDATE SERVER DATA".to_owned(),
            detail,
        }
    }
}

/// How a device cycle ended.
#[derive(Clone, Copy, Debug, PartialEq, Eq, Structural)]
pub enum DeviceCycleOutcome {
    MissingConfig,
    SyncRequested,
    RefreshOnly,
    SleepOnly,
    LowBatterySkipSync,
    SyncFailed,
    RefreshFailed,
    NoUsablePhoto,
}

#[derive(Clone, Copy, Debug, PartialEq, Eq, Structural)]
pub enum SyncAction {
    Fetch,
    Skip,
}

#[derive(Clone, Copy, Debug, PartialEq, Eq, Structural)]
pub enum SyncCause {
    External,
    Daily,
    Done,
    LowBattery,
    MissingConfig,
}

/// Whether this cycle talks to the server, and why.
#[derive(Clone, Copy, Debug, PartialEq, Eq, Structural)]
pub struct SyncDecision {
    pub action: SyncAction,
    pub cause: SyncCause,
}

pub open spec fn config_is_usable(config: Option<Config>) -> bool {
    config matches Some(config) && config.spec_has_required_values()
}

/// A low battery skips the sync; so does a missing or incomplete configuration. On external
/// power the device syncs every time; on battery once a day.
pub open spec fn spec_decide_sync(
    config: Option<Config>,
    battery: BatteryStatus,
    sync_state: PersistentSyncState,
    date: LocalDate,
) -> SyncDecision {
    if battery.spec_effective_low_battery() {
        SyncDecision { action: SyncAction::Skip, cause: SyncCause::LowBattery }
    } else if !config_is_usable(config) {
        SyncDecision { action: SyncAction::Skip, cause: SyncCause::MissingConfig }
    } else if PowerProfile::spec_from_battery(battery) == PowerProfile::External {
        SyncDecision { action: SyncAction::Fetch, cause: SyncCause::External }
    } else if sync_state.date != Some(date) {
        SyncDecision { action: SyncAction::Fetch, cause: SyncCause::Daily }
    } else {
        SyncDecision { action: SyncAction::Skip, cause: SyncCause::Done }
    }
}

pub open spec fn opt_config(config: Option<&Config>) -> Option<Config> {
    match config {
        Some(config) => Some(*config),
        None => None,
    }
}

pub fn decide_sync(
    config: Option<&Config>,
    battery: &BatteryStatus,
    sync_state: &PersistentSyncState,
    date: LocalDate,
) -> (result: SyncDecision)
    ensures
        result == spec_decide_sync(opt_config(config), *battery, *sync_state, date),
{
    if battery.effective_low_battery() {
        return SyncDecision { action: SyncAction::Skip, cause: SyncCause::LowBattery };
    }
    let usable = match config {
        Some(config) => config.has_required_values(),
        None => false,
    };
    if !usable {
        return SyncDecision { action: SyncAction::Skip, cause: SyncCause::MissingConfig };
    }
    if PowerProfile::from_battery(battery) == PowerProfile::External {
        return SyncDecision { action: SyncAction::Fetch, cause: SyncCause::External };
    }
    if sync_state.date != Some(date) {
        return SyncDecision { action: SyncAction::Fetch, cause: SyncCause::Daily };
    }
    SyncDecision { action: SyncAction::Skip, cause: SyncCause::Done }
}

#[derive(Debug, PartialEq, Eq)]
pub enum DisplayAction {
    Keep,
    Refresh(DisplayTarget),
}

/// What to draw: a photo with its caption, or a full-screen page.
#[derive(Debug, PartialEq, Eq)]
pub enum DisplayTarget {
    Photo { date: LocalDate, image: String, caption: String },
    Page { date: LocalDate, title: String, message: String, hint: String, detail: String },
}

impl Clone for DisplayTarget {
    fn clone(&self) -> (result: Self)
        ensures
            result == *self,
    {
        match self {
            DisplayTarget::Photo { date, image, caption } => DisplayTarget::Photo {
                date: *date,
                image: image.clone(),
                caption: caption.clone(),
            },
            DisplayTarget::Page { date, title, message, hint, detail } => DisplayTarget::Page {
                date: *date,
                title: title.clone(),
                message: message.clone(),
                hint: hint.clone(),
                detail: detail.clone(),
            },
        }
    }
}

#[derive(Clone, Copy, Debug, PartialEq, Eq, Structural)]
pub enum DisplayCause {
    First,
    Date,
    Photo,
    LowBattery,
    Sync,
    MissingConfig,
    MissingPhoto,
    Same,
}

/// What the panel should do this cycle, and why.
#[derive(Debug, PartialEq, Eq)]
pub struct DisplayDecision {
    pub action: DisplayAction,
    pub cause: DisplayCause,
}

pub ghost enum DisplayTargetView {
    Photo { date: LocalDate, image: Seq<char>, caption: Seq<char> },
    Page { date: LocalDate, title: Seq<char>, message: Seq<char>, hint: Seq<char>, detail: Seq<char> },
}

pub ghost enum DisplayActionView {
    Keep,
    Refresh(DisplayTargetView),
}

pub ghost struct DisplayDecisionView {
    pub action: DisplayActionView,
    pub cause: DisplayCause,
}

impl View for DisplayTarget {
    type V = DisplayTargetView;

    open spec fn view(&self) -> DisplayTargetView {
        match self {
            DisplayTarget::Photo { date, image, caption } => DisplayTargetView::Photo {
                date: *date,
                image: image@,
                caption: caption@,
            },
            DisplayTarget::Page { date, title, message, hint, detail } => DisplayTargetView::Page {
                date: *date,
                title: title@,
                message: message@,
                hint: hint@,
                detail: detail@,
            },
        }
    }
}

impl View for DisplayAction {
    type V = DisplayActionView;

    open spec fn view(&self) -> DisplayActionView {
        match self {
            DisplayAction::Keep => DisplayActionView::Keep,
            DisplayAction::Refresh(target) => DisplayActionView::Refresh(target@),
        }
    }
}

impl View for DisplayDecision {
    type V = DisplayDecisionView;

    open spec fn view(&self) -> DisplayDecisionView {
        DisplayDecisionView { action: self.action@, cause: self.cause }
    }
}

/// The inputs of the display decision.
#[derive(Debug, PartialEq, Eq)]
pub struct RunContext {
    pub now: u64,
    pub date: LocalDate,
    pub trigger: RunTrigger,
    pub battery: BatteryStatus,
    pub power: PowerProfile,
    pub config: Option<Config>,
    pub plans: Option<Vec<Plan>>,
    pub state: PersistentDeviceState,
    pub sync: PersistentSyncState,
}

pub open spec fn page_view(
    date: LocalDate,
    title: Seq<char>,
    message: Seq<char>,
    hint: Seq<char>,
    detail: Seq<char>,
    cause: DisplayCause,
) -> DisplayDecisionView {
    DisplayDecisionView {
        action: DisplayActionView::Refresh(
            DisplayTargetView::Page { date, title, message, hint, detail },
        ),
        cause,
    }
}

pub open spec fn missing_photo_view(date: LocalDate) -> DisplayDecisionView {
    page_view(
        date,
        "NO PHOTO"@,
        "NO DISPLAYABLE PHOTO"@,
        "CHECK SERVER PLAN AND IMAGE CACHE"@,
        "PHOTO RESOURCE IS MISSING"@,
        DisplayCause::MissingPhoto,
    )
}

/// The plan that the display would show from `plans` on `date`.
pub open spec fn selected_plan(plans: Option<Seq<Plan>>, date: LocalDate) -> Option<Plan> {
    match plans {
        Some(plans) => match selected_plan_index(plans, date) {
            Some(i) => Some(plans[i]),
            None => None,
        },
        None => None,
    }
}

/// The display decision. Without a configuration the frame shows the configuration page; on
/// a low battery the low-battery page; after a failed sync the sync error page. Otherwise it
/// shows the selected plan's photo when the photo is on the card (`photo_available`), keeping
/// the panel as it is when it already shows that photo for this date, and the missing-photo
/// page when there is no plan or no photo.
pub open spec fn spec_decide_display(
    config_present: bool,
    battery: BatteryStatus,
    plans: Option<Seq<Plan>>,
    state: PersistentDeviceState,
    date: LocalDate,
    photo_available: bool,
    sync_error: Option<SyncErrorReport>,
) -> DisplayDecisionView {
    if !config_present {
        page_view(
            date,
            "CONFIG ERROR"@,
            "DEVICE CONFIG IS MISSING"@,
            "CHECK /SDCARD/CONFIG.TOML"@,
            "WIFI BASE URL AND SECRET KEY REQUIRED"@,
            DisplayCause::MissingConfig,
        )
    } else if battery.spec_effective_low_battery() {
        page_view(
            date,
            "LOW BATTERY"@,
            "BATTERY IS LOW"@,
            "CONNECT POWER"@,
            "CLOUD SYNC PAUSED"@,
            DisplayCause::LowBattery,
        )
    } else if sync_error is Some {
        page_view(
            date,
            "SYNC ERROR"@,
            ascii_upper(sync_error.unwrap().message@),
            "CHECK WIFI BASE URL AND SERVER"@,
            sync_error.unwrap().detail@,
            DisplayCause::Sync,
        )
    } else {
        match selected_plan(plans, date) {
            Some(plan) => if !photo_available {
                missing_photo_view(date)
            } else if state.shows(date, plan) {
                DisplayDecisionView { action: DisplayActionView::Keep, cause: DisplayCause::Same }
            } else {
                DisplayDecisionView {
                    action: DisplayActionView::Refresh(
                        DisplayTargetView::Photo { date, image: plan.image@, caption: plan.caption@ },
                    ),
                    cause: if state.image is None {
                        DisplayCause::First
                    } else if state.date != Some(date) {
                        DisplayCause::Date
                    } else {
                        DisplayCause::Photo
                    },
                }
            },
            None => missing_photo_view(date),
        }
    }
}

/// Whether the display decision asks if the selected plan's photo is on the card.
pub open spec fn needs_photo_check(
    config_present: bool,
    battery: BatteryStatus,
    plans: Option<Seq<Plan>>,
    date: LocalDate,
    sync_error: Option<SyncErrorReport>,
) -> bool {
    config_present && !battery.spec_effective_low_battery() && sync_error is None && selected_plan(
        plans,
        date,
    ) is Some
}

pub open spec fn opt_report(report: Option<&SyncErrorReport>) -> Option<SyncErrorReport> {
    match report {
        Some(report) => Some(*report),
        None => None,
    }
}

fn page_decision(
    date: LocalDate,
    title: &str,
    message: String,
    hint: &str,
    detail: String,
    cause: DisplayCause,
) -> (result: DisplayDecision)
    ensures
        result@ == page_view(date, title@, message@, hint@, detail@, cause),
{
    DisplayDecision {
        action: DisplayAction::Refresh(
            DisplayTarget::Page {
                date,
                title: title.to_owned(),
                message,
                hint: hint.to_owned(),
                detail,
            },
        ),
        cause,
    }
}

fn sync_error_report_decision(date: LocalDate, sync_error: &SyncErrorReport) -> (result: DisplayDecision)
    ensures
        result@ == page_view(
            date,
            "SYNC ERROR"@,
            ascii_upper(sync_error.message@),
            "CHECK WIFI BASE URL AND SERVER"@,
            sync_error.detail@,
            DisplayCause::Sync,
        ),
{
    page_decision(
        date,
        "SYNC ERROR",
        to_ascii_uppercase(sync_error.message.as_str()),
        "CHECK WIFI BASE URL AND SERVER",
        sync_error.detail.clone(),
        DisplayCause::Sync,
    )
}

fn photo_target_from_plan(date: LocalDate, plan: &Plan) -> (result: DisplayTarget)
    ensures
        result@ == (DisplayTargetView::Photo { date, image: plan.image@, caption: plan.caption@ }),
{
    DisplayTarget::Photo { date, image: plan.image.clone(), caption: plan.caption.clone() }
}

fn missing_photo_decision(date: LocalDate) -> (result: DisplayDecision)
    ensures
        result@ == missing_photo_view(date),
{
    page_decision(
        date,
        "NO PHOTO",
        "NO DISPLAYABLE PHOTO".to_owned(),
        "CHECK SERVER PLAN AND IMAGE CACHE",
        "PHOTO RESOURCE IS MISSING".to_owned(),
        DisplayCause::MissingPhoto,
    )
}

fn selected_plan_of<'a>(plans: &'a Option<Vec<Plan>>, date: LocalDate) -> (result: Option<&'a Plan>)
    ensures
        match result {
            Some(plan) => selected_plan(opt_plans(*plans), date) == Some(*plan),
            None => selected_plan(opt_plans(*plans), date) is None,
        },
{
    match plans {
        Some(plans) => select_plan_for_date(plans.as_slice(), date),
        None => None,
    }
}

/// The display decision, given whether the selected plan's photo is on the card.
pub fn decide_display_with(
    context: &RunContext,
    photo_available: bool,
    sync_error: Option<&SyncErrorReport>,
) -> (result: DisplayDecision)
    ensures
        result@ == spec_decide_display(
            context.config is Some,
            context.battery,
            opt_plans(context.plans),
            context.state,
            context.date,
            photo_available,
            opt_report(sync_error),
        ),
{
    if context.config.is_none() {
        return page_decision(
            context.date,
            "CONFIG ERROR",
            "DEVICE CONFIG IS MISSING".to_owned(),
            "CHECK /SDCARD/CONFIG.TOML",
            "WIFI BASE URL AND SECRET KEY REQUIRED".to_owned(),
            DisplayCause::MissingConfig,
        );
    }
    if context.battery.effective_low_battery() {
        return page_decision(
            context.date,
            "LOW BATTERY",
            "BATTERY IS LOW".to_owned(),
            "CONNECT POWER",
            "CLOUD SYNC PAUSED".to_owned(),
            DisplayCause::LowBattery,
        );
    }
    let selected = selected_plan_of(&context.plans, context.date);
    if let Some(sync_error) = sync_error {
        return sync_error_report_decision(context.date, sync_error);
    }
    if let Some(plan) = selected {
        if !photo_available {
            return missing_photo_decision(context.date);
        }
        if context.state.matches_display(context.date, plan) {
            return DisplayDecision { action: DisplayAction::Keep, cause: DisplayCause::Same };
        }
        let cause = if context.state.image.is_none() {
            DisplayCause::First
        } else if context.state.date != Some(context.date) {
            DisplayCause::Date
        } else {
            DisplayCause::Photo
        };
        return DisplayDecision {
            action: DisplayAction::Refresh(photo_target_from_plan(context.date, plan)),
            cause,
        };
    }
    missing_photo_decision(context.date)
}

/// The display decision; `image_exists` is asked about the selected plan's photo, and only
/// when the decision depends on it.
pub fn decide_display(
    context: &RunContext,
    image_exists: impl Fn(&str) -> bool,
    sync_error: Option<&SyncErrorReport>,
) -> (result: DisplayDecision)
    requires
        forall|image: &str| image_exists.requires((image,)),
    ensures
        !needs_photo_check(
            context.config is Some,
            context.battery,
            opt_plans(context.plans),
            context.date,
            opt_report(sync_error),
        ) ==> result@ == spec_decide_display(
            context.config is Some,
            context.battery,
            opt_plans(context.plans),
            context.state,
            context.date,
            false,
            opt_report(sync_error),
        ),
        needs_photo_check(
            context.config is Some,
            context.battery,
            opt_plans(context.plans),
            context.date,
            opt_report(sync_error),
        ) ==> exists|image: &str, present: bool|
            image@ == selected_plan(opt_plans(context.plans), context.date).unwrap().image@
                && #[trigger] image_exists.ensures((image,), present) && result@
                == spec_decide_display(
                context.config is Some,
                context.battery,
                opt_plans(context.plans),
                context.state,
                context.date,
                present,
                opt_report(sync_error),
            ),
{
    let mut present = false;
    if context.config.is_some() && !context.battery.effective_low_battery() && sync_error.is_none() {
        let selected = selected_plan_of(&context.plans, context.date);
        if let Some(plan) = selected {
            let image = plan.image.as_str();
            present = image_exists(image);
            let result = decide_display_with(context, present, sync_error);
            assert(image_exists.ensures((image,), present));
            return result;
        }
    }
    decide_display_with(context, present, sync_error)
}


pub open spec fn spec_refresh_reason(cause: DisplayCause) -> RefreshReason {
    match cause {
        DisplayCause::First => RefreshReason::FirstBoot,
        DisplayCause::Date | DisplayCause::Photo => RefreshReason::PlanChanged,
        _ => RefreshReason::ErrorPage,
    }
}

fn refresh_reason(cause: DisplayCause) -> (result: RefreshReason)
    ensures
        result == spec_refresh_reason(cause),
{
    match cause {
        DisplayCause::First => RefreshReason::FirstBoot,
        DisplayCause::Date | DisplayCause::Photo => RefreshReason::PlanChanged,
        DisplayCause::LowBattery
        | DisplayCause::Sync
        | DisplayCause::MissingConfig
        | DisplayCause::MissingPhoto
        | DisplayCause::Same => RefreshReason::ErrorPage,
    }
}

/// The outcome of a cycle. Configuration problems come first, then a low battery, then a
/// failed redraw, then a failed sync; otherwise the display decision tells it.
pub open spec fn spec_cycle_outcome(
    decision: DisplayDecisionView,
    config_usable: bool,
    sync_requested: bool,
    low_battery: bool,
    sync_failed: bool,
    refresh_failed: bool,
    refresh_attempted: bool,
) -> DeviceCycleOutcome {
    if !config_usable {
        DeviceCycleOutcome::MissingConfig
    } else if low_battery {
        DeviceCycleOutcome::LowBatterySkipSync
    } else if refresh_failed {
        DeviceCycleOutcome::RefreshFailed
    } else if sync_failed {
        DeviceCycleOutcome::SyncFailed
    } else if decision.cause == DisplayCause::MissingConfig {
        DeviceCycleOutcome::MissingConfig
    } else if decision.cause == DisplayCause::MissingPhoto {
        DeviceCycleOutcome::NoUsablePhoto
    } else if decision.action is Refresh || refresh_attempted {
        DeviceCycleOutcome::RefreshOnly
    } else if sync_requested {
        DeviceCycleOutcome::SyncRequested
    } else {
        DeviceCycleOutcome::SleepOnly
    }
}

fn cycle_outcome(
    decision: &DisplayDecision,
    config: Option<&Config>,
    sync_requested: bool,
    low_battery: bool,
    sync_failed: bool,
    refresh_failed: bool,
    refresh_attempted: bool,
) -> (result: DeviceCycleOutcome)
    ensures
        result == spec_cycle_outcome(
            decision@,
            config_is_usable(opt_config(config)),
            sync_requested,
            low_battery,
            sync_failed,
            refresh_failed,
            refresh_attempted,
        ),
{
    let usable = match config {
        Some(config) => config.has_required_values(),
        None => false,
    };
    if !usable {
        return DeviceCycleOutcome::MissingConfig;
    }
    if low_battery {
        return DeviceCycleOutcome::LowBatterySkipSync;
    }
    if refresh_failed {
        return DeviceCycleOutcome::RefreshFailed;
    }
    if sync_failed {
        return DeviceCycleOutcome::SyncFailed;
    }
    match decision.cause {
        DisplayCause::MissingConfig => DeviceCycleOutcome::MissingConfig,
        DisplayCause::MissingPhoto => DeviceCycleOutcome::NoUsablePhoto,
        _ => {
            let refreshing = match &decision.action {
                DisplayAction::Refresh(_) => true,
                DisplayAction::Keep => false,
            };
            if refreshing || refresh_attempted {
                DeviceCycleOutcome::RefreshOnly
            } else if sync_requested {
                DeviceCycleOutcome::SyncRequested
            } else {
                DeviceCycleOutcome::SleepOnly
            }
        },
    }
}

/// The request that the sync is handed: the configuration, the plans on the card, the date
/// and the time.
pub fn sync_request_for(
    config: &Config,
    plans: &Option<Vec<Plan>>,
    date: LocalDate,
    now_epoch_seconds: u64,
) -> (result: SyncRequest)
    ensures
        result.config == *config,
        opt_plans(result.local_plans) == opt_plans(*plans),
        result.date == date,
        result.now_epoch_seconds == now_epoch_seconds,
{
    SyncRequest { config: config.clone(), local_plans: clone_plans(plans), date, now_epoch_seconds }
}

/// `after` is `before` with one more request, `request`.
pub open spec fn one_more<T>(before: Seq<T>, after: Seq<T>) -> bool {
    after.len() == before.len() + 1 && after.take(before.len() as int) == before
}

/// The photo request handed to the display for drawing `target` for `cause`.
pub open spec fn photo_request_for(request: DisplayRefreshRequest, target: DisplayTargetView, cause: DisplayCause, now_epoch_seconds: u64) -> bool {
    match target {
        DisplayTargetView::Photo { date, image, caption } => {
            &&& request.plan.date == date
            &&& request.plan.image@ == image
            &&& request.plan.caption@ == caption
            &&& request.date == date
            &&& request.reason == spec_refresh_reason(cause)
            &&& request.now_epoch_seconds == now_epoch_seconds
        },
        DisplayTargetView::Page { .. } => false,
    }
}

/// The page request handed to the display for drawing `target`.
pub open spec fn page_request_for(request: ErrorRefreshRequest, target: DisplayTargetView, now_epoch_seconds: u64) -> bool {
    match target {
        DisplayTargetView::Page { date, title, message, hint, detail } => {
            &&& request.title@ == title
            &&& request.message@ == message
            &&& request.hint@ == hint
            &&& request.detail@ == detail
            &&& request.now_epoch_seconds == now_epoch_seconds
        },
        DisplayTargetView::Photo { .. } => false,
    }
}

/// What the display was handed for drawing `target`: one photo request with its
/// sprites, or one page request.
pub open spec fn display_handed<D: DeviceDisplay>(
    before: D,
    after: D,
    target: DisplayTargetView,
    cause: DisplayCause,
    sprites: SpriteSet,
    now_epoch_seconds: u64,
) -> bool {
    match target {
        DisplayTargetView::Photo { .. } => {
            &&& after.page_requests() == before.page_requests()
            &&& one_more(before.photo_requests(), after.photo_requests())
            &&& photo_request_for(after.photo_requests().last(), target, cause, now_epoch_seconds)
            &&& after.photo_requests().last().sprites == sprites
        },
        DisplayTargetView::Page { .. } => {
            &&& after.photo_requests() == before.photo_requests()
            &&& one_more(before.page_requests(), after.page_requests())
            &&& page_request_for(after.page_requests().last(), target, now_epoch_seconds)
        },
    }
}

/// The request handed to the sync: the cycle's configuration, the plans it
/// started from, its date and its time.
pub open spec fn sync_request_handed(request: SyncRequest, input: DeviceCycleInput) -> bool {
    &&& input.config == Some(request.config)
    &&& opt_plans(request.local_plans) == opt_plans(input.plans)
    &&& request.date == input.date
    &&& request.now_epoch_seconds == input.now_epoch_seconds
}

/// The state that the panel is left in after `target` was drawn.
pub open spec fn state_after_drawing(target: DisplayTargetView) -> Option<PersistentDeviceState> {
    match target {
        DisplayTargetView::Page { date, .. } => Some(PersistentDeviceState::page_state(date)),
        DisplayTargetView::Photo { .. } => None,
    }
}

fn refresh_target<D: DeviceDisplay>(
    display: &mut D,
    persistent_state: &mut PersistentDeviceState,
    target: DisplayTarget,
    sprites: SpriteSet,
    now_epoch_seconds: u64,
    cause: DisplayCause,
) -> (result: Result<(), D::Error>)
    ensures
        display_handed(*old(display), *final(display), target@, cause, sprites, now_epoch_seconds),
        one_more(old(display).answers(), final(display).answers()),
        result == final(display).answers().last(),
        result is Err ==> *final(persistent_state) == *old(persistent_state),
        result is Ok ==> match target@ {
            DisplayTargetView::Photo { date, image, caption } => {
                &&& final(persistent_state).date == Some(date)
                &&& final(persistent_state).image matches Some(i) && i@ == image
                &&& final(persistent_state).caption matches Some(c) && c@ == caption
                &&& final(persistent_state).notice is None
            },
            DisplayTargetView::Page { date, .. } => *final(persistent_state)
                == PersistentDeviceState::page_state(date),
        },
{
    match target {
        DisplayTarget::Photo { date, image, caption } => {
            let plan = Plan { date, image, caption };
            let state_plan = plan.clone();
            let request = DisplayRefreshRequest {
                plan,
                date,
                reason: refresh_reason(cause),
                sprites,
                now_epoch_seconds,
            };
            let ghost handed = request;
            let ghost before = display.photo_requests();
            let ghost answers_before = display.answers();
            let answer = display.refresh(request);
            proof {
                assert(display.photo_requests().take(before.len() as int) =~= before);
                assert(display.photo_requests().last() == handed);
                assert(display.answers().take(answers_before.len() as int) =~= answers_before);
            }
            if answer.is_ok() {
                persistent_state.set_display(date, &state_plan);
            }
            answer
        },
        DisplayTarget::Page { date, title, message, hint, detail } => {
            let request = ErrorRefreshRequest { title, message, hint, detail, now_epoch_seconds };
            let ghost handed = request;
            let ghost before = display.page_requests();
            let ghost answers_before = display.answers();
            let answer = display.refresh_error_page(request);
            proof {
                assert(display.page_requests().take(before.len() as int) =~= before);
                assert(display.page_requests().last() == handed);
                assert(display.answers().take(answers_before.len() as int) =~= answers_before);
            }
            if answer.is_ok() {
                persistent_state.set_page(date);
            }
            answer
        },
    }
}

/// The display decision that a cycle reaches, from the plans it holds after the sync.
pub open spec fn cycle_display_view(
    input: DeviceCycleInput,
    plans: Option<Seq<Plan>>,
    photo_available: bool,
    sync_error: Option<SyncErrorReport>,
) -> DisplayDecisionView {
    spec_decide_display(
        input.config is Some,
        input.battery,
        plans,
        input.persistent_state,
        input.date,
        photo_available,
        sync_error,
    )
}

/// The sprites a cycle hands the display: those of the sync's last answer after
/// a successful sync, none otherwise.
pub open spec fn cycle_sprites<E>(sync_succeeded: bool, replies: Seq<Result<SyncResult, E>>) -> SpriteSet {
    if sync_succeeded {
        replies.last()->Ok_0.sprites
    } else {
        SpriteSet { caption: None, date: None }
    }
}

/// The report a cycle decides its page with: the sync's own description of a
/// failed sync, and none otherwise.
pub open spec fn cycle_report<S: DeviceCloudSync>(
    sync_attempted: bool,
    sync_succeeded: bool,
    sync: S,
    report: Option<SyncErrorReport>,
) -> bool {
    if sync_attempted && !sync_succeeded {
        report matches Some(r) && sync.describes(sync.replies().last()->Err_0, r)
    } else {
        report is None
    }
}

/// Whether the cycle finds the selected plan's photo on the display: asked only
/// with a configuration, without a low battery and without a sync error.
pub open spec fn cycle_photo_available<D: DeviceDisplay>(
    input: DeviceCycleInput,
    plans: Option<Seq<Plan>>,
    report: Option<SyncErrorReport>,
    display: D,
) -> bool {
    if input.config is Some && !input.battery.spec_effective_low_battery() && report is None {
        match selected_plan(plans, input.date) {
            Some(plan) => display.holds_image(plan.image@),
            None => false,
        }
    } else {
        false
    }
}

/// The error text a cycle keeps is `error`'s display text.
pub open spec fn error_text<E: fmt::Display>(error: &E, text: Option<String>) -> bool {
    match text {
        Some(text) => vstd::string::to_string_from_display_ensures::<E>(error, text),
        None => false,
    }
}

/// The report of a failed draw: code `display.refresh`, category `display`, no
/// stage, a fixed message and the kept error text as its detail.
pub open spec fn display_failure_recorded(text: Option<String>, report: Option<SyncErrorReport>) -> bool {
    match (text, report) {
        (Some(text), Some(report)) => {
            &&& report.code@ == "display.refresh"@
            &&& report.category@ == "display"@
            &&& report.stage is None
            &&& report.message@ == "DISPLAY REFRESH FAILED"@
            &&& report.detail@ == text@
        },
        _ => false,
    }
}

/// One wake-up: decide whether to sync and sync, decide what to draw and draw it, and report
/// the state to keep and the outcome.
pub fn run_device_cycle<S: DeviceCloudSync, D: DeviceDisplay>(
    input: DeviceCycleInput,
    sync: &mut S,
    display: &mut D,
) -> (result: DeviceCycleResult)
    ensures
        result.sync_decision == spec_decide_sync(
            input.config,
            input.battery,
            input.sync_state,
            input.date,
        ),
        result.battery == input.battery,
        result.sync_attempted == (result.sync_decision.action == SyncAction::Fetch),
        result.sync_succeeded ==> result.sync_attempted,
        result.sync_succeeded ==> result.sync_state == (PersistentSyncState {
            date: Some(input.date),
        }),
        !result.sync_succeeded ==> result.sync_state == input.sync_state && opt_plans(
            result.plans,
        ) == opt_plans(input.plans),
        exists|report: Option<SyncErrorReport>|
            {
                &&& #[trigger] cycle_report(result.sync_attempted, result.sync_succeeded, *final(sync), report)
                &&& (!(result.refresh_attempted && !result.refresh_succeeded)
                    ==> result.sync_error_report == report)
                &&& result.display_decision@ == cycle_display_view(
                    input,
                    opt_plans(result.plans),
                    cycle_photo_available(input, opt_plans(result.plans), report, *old(display)),
                    report,
                )
            },
        result.refresh_attempted ==> one_more(old(display).answers(), final(display).answers()) && (
        result.refresh_succeeded <==> final(display).answers().last() is Ok),
        !result.refresh_attempted ==> final(display).answers() == old(display).answers(),
        result.sync_attempted && !result.sync_succeeded && !(result.refresh_attempted && !result.refresh_succeeded)
            ==> error_text(&final(sync).replies().last()->Err_0, result.sync_error),
        result.refresh_attempted && !result.refresh_succeeded ==> error_text(
            &final(display).answers().last()->Err_0,
            result.sync_error,
        ) && display_failure_recorded(result.sync_error, result.sync_error_report),
        result.refresh_attempted == (result.display_decision.action is Refresh),
        result.refresh_succeeded ==> result.refresh_attempted,
        !result.refresh_succeeded ==> result.persistent_state == input.persistent_state,
        result.refresh_succeeded ==> match result.display_decision@.action {
            DisplayActionView::Refresh(DisplayTargetView::Photo { date, image, caption }) => {
                &&& result.persistent_state.date == Some(date)
                &&& result.persistent_state.image matches Some(i) && i@ == image
                &&& result.persistent_state.caption matches Some(c) && c@ == caption
                &&& result.persistent_state.notice is None
            },
            DisplayActionView::Refresh(DisplayTargetView::Page { date, .. }) => result.persistent_state
                == PersistentDeviceState::page_state(date),
            DisplayActionView::Keep => false,
        },
        result.sync_attempted ==> one_more(old(sync).requests(), final(sync).requests()) && sync_request_handed(
            final(sync).requests().last(),
            input,
        ),
        !result.sync_attempted ==> final(sync).requests() == old(sync).requests(),
        !result.refresh_attempted ==> final(display).photo_requests() == old(display).photo_requests()
            && final(display).page_requests() == old(display).page_requests(),
        result.sync_attempted ==> one_more(old(sync).replies(), final(sync).replies()) && (result.sync_succeeded
            <==> final(sync).replies().last() is Ok),
        result.sync_succeeded ==> opt_plans(result.plans) == Some(final(sync).replies().last()->Ok_0.plans@),
        !result.sync_attempted ==> final(sync).replies() == old(sync).replies(),
        result.refresh_attempted ==> display_handed(
            *old(display),
            *final(display),
            result.display_decision@.action->Refresh_0,
            result.display_decision.cause,
            cycle_sprites(result.sync_succeeded, final(sync).replies()),
            input.now_epoch_seconds,
        ),
        result.sync_error is Some <==> ((result.sync_attempted && !result.sync_succeeded) || (
        result.refresh_attempted && !result.refresh_succeeded)),
        result.sync_error_report is Some <==> result.sync_error is Some,
        result.display_available == (result.refresh_succeeded || (input.persistent_state_loaded
            && result.display_decision.action is Keep)),
        result.outcome == spec_cycle_outcome(
            result.display_decision@,
            config_is_usable(input.config),
            result.sync_decision.action == SyncAction::Fetch,
            input.battery.spec_effective_low_battery(),
            result.sync_attempted && !result.sync_succeeded,
            result.refresh_attempted && !result.refresh_succeeded,
            result.refresh_attempted,
        ),
{
    let ghost original = input;
    let config = input.config;
    let mut plans = input.plans;
    let mut persistent_state = input.persistent_state;
    let persistent_state_loaded = input.persistent_state_loaded;
    let mut sync_state = input.sync_state;
    let trigger = input.trigger;
    let now_epoch_seconds = input.now_epoch_seconds;
    let date = input.date;
    let battery = input.battery;

    let sync_decision = decide_sync(config.as_ref(), &battery, &sync_state, date);
    let sync_requested = sync_decision.action == SyncAction::Fetch;
    let effective_low_battery = battery.effective_low_battery();
    let mut sync_attempted = false;
    let mut sync_succeeded = false;
    let mut sync_error: Option<String> = None;
    let mut sync_error_report: Option<SyncErrorReport> = None;
    let mut sync_failed = false;
    let mut sprites = SpriteSet::default();
    if sync_requested && !effective_low_battery {
        let usable = match &config {
            Some(config) => config.has_required_values(),
            None => false,
        };
        if usable {
            let config_ref = config.as_ref().unwrap();
            sync_attempted = true;
            let request = sync_request_for(config_ref, &plans, date, now_epoch_seconds);
            let ghost handed = request;
            let ghost before = sync.requests();
            let ghost replies_before = sync.replies();
            let answer = sync.sync_resources(request);
            proof {
                assert(sync.requests().take(before.len() as int) =~= before);
                assert(sync.requests().last() == handed);
                assert(sync.replies().take(replies_before.len() as int) =~= replies_before);
                assert(sync.replies().last() == answer);
            }
            match answer {
                Ok(sync_result) => {
                    plans = Some(sync_result.plans);
                    sprites = sync_result.sprites;
                    sync_succeeded = true;
                    sync_state.date = Some(date);
                },
                Err(error) => {
                    assert(error == sync.replies().last()->Err_0);
                    let report = sync.describe_error(&error);
                    sync_error = Some(error.to_string());
                    sync_error_report = Some(report);
                    sync_failed = true;
                },
            }
        } else {
            sync_error = Some("missing or incomplete config".to_owned());
            sync_error_report = Some(
                SyncErrorReport::new(
                    "config.missing",
                    "config",
                    None,
                    "DEVICE CONFIG IS MISSING",
                    "missing or incomplete config",
                ),
            );
        }
    }
    let ghost pre_refresh_report = sync_error_report;

    let context = RunContext {
        now: now_epoch_seconds,
        date,
        trigger,
        battery,
        power: PowerProfile::from_battery(&battery),
        config: match &config {
            Some(config) => Some(config.clone()),
            None => None,
        },
        plans: clone_plans(&plans),
        state: persistent_state.clone(),
        sync: sync_state,
    };
    let mut photo_available = false;
    if context.config.is_some() && !effective_low_battery && sync_error_report.is_none() {
        if let Some(plan) = selected_plan_of(&context.plans, date) {
            photo_available = display.has_image(plan.image.as_str());
        }
    }
    let decision = decide_display_with(&context, photo_available, sync_error_report.as_ref());
    assert(photo_available == cycle_photo_available(original, opt_plans(plans), pre_refresh_report, *old(display)));
    assert(decision@ == cycle_display_view(
        original,
        opt_plans(plans),
        photo_available,
        pre_refresh_report,
    ));
    assert(cycle_report(sync_attempted, sync_succeeded, *sync, pre_refresh_report));

    let mut refresh_attempted = false;
    let mut refresh_succeeded = false;
    let mut refresh_failed = false;
    if let DisplayAction::Refresh(target) = &decision.action {
        refresh_attempted = true;
        let result = refresh_target(
            display,
            &mut persistent_state,
            target.clone(),
            sprites.clone(),
            now_epoch_seconds,
            decision.cause,
        );
        match result {
            Ok(()) => refresh_succeeded = true,
            Err(error) => {
                let detail = error.to_string();
                sync_error_report = Some(
                    SyncErrorReport::new(
                        "display.refresh",
                        "display",
                        None,
                        "DISPLAY REFRESH FAILED",
                        detail.as_str(),
                    ),
                );
                sync_error = Some(detail);
                refresh_failed = true;
            },
        }
    }
    let keeping = match &decision.action {
        DisplayAction::Keep => true,
        DisplayAction::Refresh(_) => false,
    };
    let display_available = refresh_succeeded || (persistent_state_loaded && keeping);

    let outcome = cycle_outcome(
        &decision,
        config.as_ref(),
        sync_requested,
        effective_low_battery,
        sync_failed,
        refresh_failed,
        refresh_attempted,
    );

    let result = DeviceCycleResult {
        plans,
        persistent_state,
        sync_state,
        battery,
        sync_decision,
        display_decision: decision,
        outcome,
        sync_attempted,
        sync_succeeded,
        sync_error,
        sync_error_report,
        refresh_attempted,
        refresh_succeeded,
        display_available,
    };
    result
}

impl<E: fmt::Display + From<&'static str>> DeviceCloudSync for ScriptedSync<SyncRequest, SyncResult, E> {
    type Error = E;

    open spec fn requests(&self) -> Seq<SyncRequest> {
        self.requests@
    }

    open spec fn replies(&self) -> Seq<Result<SyncResult, E>> {
        self.replies@
    }

    fn sync_resources(&mut self, request: SyncRequest) -> (result: Result<SyncResult, E>) {
        self.answer(request)
    }

    /// The generic sync report: code `sync.error`, category `sync`, no stage,
    /// a fixed message and the error's text as its detail.
    open spec fn describes(&self, error: E, report: SyncErrorReport) -> bool {
        &&& report.code@ == "sync.error"@
        &&& report.category@ == "sync"@
        &&& report.stage is None
        &&& report.message@ == "CANNOT UPDATE SERVER DATA"@
        &&& vstd::string::to_string_from_display_ensures::<E>(&error, report.detail)
    }

    fn describe_error(&self, error: &E) -> (report: SyncErrorReport) {
        SyncErrorReport::from_display(error)
    }
}

impl<E: fmt::Display> DeviceDisplay for ScriptedDisplay<DisplayRefreshRequest, E> {
    type Error = E;

    open spec fn photo_requests(&self) -> Seq<DisplayRefreshRequest> {
        self.requests@
    }

    open spec fn page_requests(&self) -> Seq<ErrorRefreshRequest> {
        self.error_requests@
    }

    open spec fn answers(&self) -> Seq<Result<(), E>> {
        self.answers@
    }

    open spec fn holds_image(&self, sha256: Seq<char>) -> bool {
        string_views(self.images@).contains(sha256)
    }

    fn refresh(&mut self, request: DisplayRefreshRequest) -> (result: Result<(), E>) {
        self.answer_photo(request)
    }

    fn refresh_error_page(&mut self, request: ErrorRefreshRequest) -> (result: Result<(), E>) {
        self.answer_page(request)
    }

    fn has_image(&self, sha256: &str) -> (found: bool) {
        self.holds(sha256)
    }
}

} // verus!
