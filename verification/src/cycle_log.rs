use crate::app::cycle::{
    DeviceCycleOutcome, DeviceCycleResult, DisplayAction, DisplayActionView, DisplayCause, DisplayDecision,
    DisplayDecisionView, DisplayTarget, DisplayTargetView, SyncAction, SyncCause,
};
use crate::diagnostics::{date_text, spec_date_text, DiagnosticLevel};
use crate::power::BatteryStatus;
use vstd::prelude::*;

verus! {

/// A value in the data of a diagnostic log entry.
#[derive(Debug, PartialEq, Eq)]
pub enum LogValue {
    Text(String),
    Flag(bool),
    Number(u64),
}

pub ghost enum LogValueView {
    Text(Seq<char>),
    Flag(bool),
    Number(u64),
}

impl View for LogValue {
    type V = LogValueView;

    open spec fn view(&self) -> LogValueView {
        match self {
            LogValue::Text(text) => LogValueView::Text(text@),
            LogValue::Flag(flag) => LogValueView::Flag(*flag),
            LogValue::Number(number) => LogValueView::Number(*number),
        }
    }
}

/// One named value of a log entry.
#[derive(Debug, PartialEq, Eq)]
pub struct LogField {
    pub key: String,
    pub value: LogValue,
}

impl View for LogField {
    type V = (Seq<char>, LogValueView);

    open spec fn view(&self) -> (Seq<char>, LogValueView) {
        (self.key@, self.value@)
    }
}

/// A diagnostic log entry, before the time and the run are added.
#[derive(Debug, PartialEq, Eq)]
pub struct LogEntry {
    pub level: DiagnosticLevel,
    pub event: String,
    pub message: String,
    pub data: Vec<LogField>,
}

pub ghost struct LogEntryView {
    pub level: DiagnosticLevel,
    pub event: Seq<char>,
    pub message: Seq<char>,
    pub data: Seq<(Seq<char>, LogValueView)>,
}

pub open spec fn fields_view(fields: Seq<LogField>) -> Seq<(Seq<char>, LogValueView)> {
    fields.map_values(|field: LogField| field@)
}

impl View for LogEntry {
    type V = LogEntryView;

    open spec fn view(&self) -> LogEntryView {
        LogEntryView { level: self.level, event: self.event@, message: self.message@, data: fields_view(self.data@) }
    }
}

pub open spec fn spec_outcome_label(outcome: DeviceCycleOutcome) -> Seq<char> {
    match outcome {
        DeviceCycleOutcome::MissingConfig => "MissingConfig"@,
        DeviceCycleOutcome::SyncRequested => "SyncRequested"@,
        DeviceCycleOutcome::RefreshOnly => "RefreshOnly"@,
        DeviceCycleOutcome::SleepOnly => "SleepOnly"@,
        DeviceCycleOutcome::LowBatterySkipSync => "LowBatterySkipSync"@,
        DeviceCycleOutcome::SyncFailed => "SyncFailed"@,
        DeviceCycleOutcome::RefreshFailed => "RefreshFailed"@,
        DeviceCycleOutcome::NoUsablePhoto => "NoUsablePhoto"@,
    }
}

/// The name a cycle outcome is logged under.
pub fn outcome_label(outcome: DeviceCycleOutcome) -> (label: &'static str)
    ensures
        label@ == spec_outcome_label(outcome),
{
    match outcome {
        DeviceCycleOutcome::MissingConfig => "MissingConfig",
        DeviceCycleOutcome::SyncRequested => "SyncRequested",
        DeviceCycleOutcome::RefreshOnly => "RefreshOnly",
        DeviceCycleOutcome::SleepOnly => "SleepOnly",
        DeviceCycleOutcome::LowBatterySkipSync => "LowBatterySkipSync",
        DeviceCycleOutcome::SyncFailed => "SyncFailed",
        DeviceCycleOutcome::RefreshFailed => "RefreshFailed",
        DeviceCycleOutcome::NoUsablePhoto => "NoUsablePhoto",
    }
}

pub open spec fn spec_sync_action_label(action: SyncAction) -> Seq<char> {
    match action {
        SyncAction::Fetch => "Fetch"@,
        SyncAction::Skip => "Skip"@,
    }
}

/// The name a sync action is logged under.
pub fn sync_action_label(action: SyncAction) -> (label: &'static str)
    ensures
        label@ == spec_sync_action_label(action),
{
    match action {
        SyncAction::Fetch => "Fetch",
        SyncAction::Skip => "Skip",
    }
}

pub open spec fn spec_sync_cause_label(cause: SyncCause) -> Seq<char> {
    match cause {
        SyncCause::External => "External"@,
        SyncCause::Daily => "Daily"@,
        SyncCause::Done => "Done"@,
        SyncCause::LowBattery => "LowBattery"@,
        SyncCause::MissingConfig => "MissingConfig"@,
    }
}

/// The name a sync cause is logged under.
pub fn sync_cause_label(cause: SyncCause) -> (label: &'static str)
    ensures
        label@ == spec_sync_cause_label(cause),
{
    match cause {
        SyncCause::External => "External",
        SyncCause::Daily => "Daily",
        SyncCause::Done => "Done",
        SyncCause::LowBattery => "LowBattery",
        SyncCause::MissingConfig => "MissingConfig",
    }
}

pub open spec fn spec_display_cause_label(cause: DisplayCause) -> Seq<char> {
    match cause {
        DisplayCause::First => "First"@,
        DisplayCause::Date => "Date"@,
        DisplayCause::Photo => "Photo"@,
        DisplayCause::LowBattery => "LowBattery"@,
        DisplayCause::Sync => "Sync"@,
        DisplayCause::MissingConfig => "MissingConfig"@,
        DisplayCause::MissingPhoto => "MissingPhoto"@,
        DisplayCause::Same => "Same"@,
    }
}

/// The name a display cause is logged under.
pub fn display_cause_label(cause: DisplayCause) -> (label: &'static str)
    ensures
        label@ == spec_display_cause_label(cause),
{
    match cause {
        DisplayCause::First => "First",
        DisplayCause::Date => "Date",
        DisplayCause::Photo => "Photo",
        DisplayCause::LowBattery => "LowBattery",
        DisplayCause::Sync => "Sync",
        DisplayCause::MissingConfig => "MissingConfig",
        DisplayCause::MissingPhoto => "MissingPhoto",
        DisplayCause::Same => "Same",
    }
}

fn text_field(key: &str, text: &str) -> (field: LogField)
    ensures
        field@ == (key@, LogValueView::Text(text@)),
{
    LogField { key: String::from_str(key), value: LogValue::Text(String::from_str(text)) }
}

fn flag_field(key: &str, flag: bool) -> (field: LogField)
    ensures
        field@ == (key@, LogValueView::Flag(flag)),
{
    LogField { key: String::from_str(key), value: LogValue::Flag(flag) }
}

fn number_field(key: &str, number: u64) -> (field: LogField)
    ensures
        field@ == (key@, LogValueView::Number(number)),
{
    LogField { key: String::from_str(key), value: LogValue::Number(number) }
}

fn push_field(fields: &mut Vec<LogField>, field: LogField)
    ensures
        fields_view(final(fields)@) == fields_view(old(fields)@).push(field@),
{
    let ghost before = fields@;
    fields.push(field);
    assert(fields_view(fields@) =~= fields_view(before).push(field@));
}

/// The data that describes a failed sync: the error and, when there is one,
/// its report's code, category, message, detail and stage.
pub open spec fn spec_sync_error_data(cycle: DeviceCycleResult) -> Seq<(Seq<char>, LogValueView)> {
    match cycle.sync_error {
        None => Seq::empty(),
        Some(error) => {
            let base = seq![("error"@, LogValueView::Text(error@))];
            match cycle.sync_error_report {
                None => base,
                Some(report) => {
                    let described = base + seq![
                        ("code"@, LogValueView::Text(report.code@)),
                        ("category"@, LogValueView::Text(report.category@)),
                        ("message"@, LogValueView::Text(report.message@)),
                        ("detail"@, LogValueView::Text(report.detail@)),
                    ];
                    match report.stage {
                        Some(stage) => described.push(("stage"@, LogValueView::Text(stage@))),
                        None => described,
                    }
                },
            }
        },
    }
}

/// Adds the data of a failed sync to `fields`.
pub fn append_sync_error_data(fields: &mut Vec<LogField>, cycle: &DeviceCycleResult)
    ensures
        fields_view(final(fields)@) == fields_view(old(fields)@) + spec_sync_error_data(*cycle),
{
    let ghost before = fields_view(fields@);
    let error = match &cycle.sync_error {
        Some(error) => error,
        None => {
            assert(fields_view(fields@) =~= before + Seq::<(Seq<char>, LogValueView)>::empty());
            return;
        },
    };
    push_field(fields, text_field("error", error.as_str()));
    let report = match &cycle.sync_error_report {
        Some(report) => report,
        None => {
            assert(fields_view(fields@) =~= before + spec_sync_error_data(*cycle));
            return;
        },
    };
    push_field(fields, text_field("code", report.code.as_str()));
    push_field(fields, text_field("category", report.category.as_str()));
    push_field(fields, text_field("message", report.message.as_str()));
    push_field(fields, text_field("detail", report.detail.as_str()));
    if let Some(stage) = &report.stage {
        push_field(fields, text_field("stage", stage.as_str()));
    }
    assert(fields_view(fields@) =~= before + spec_sync_error_data(*cycle));
}

/// The data that describes a display decision: the action, the cause, and what
/// is drawn.
pub open spec fn spec_display_decision_data(decision: DisplayDecisionView) -> Seq<(Seq<char>, LogValueView)> {
    let cause = ("cause"@, LogValueView::Text(spec_display_cause_label(decision.cause)));
    match decision.action {
        DisplayActionView::Keep => seq![("action"@, LogValueView::Text("Keep"@)), cause],
        DisplayActionView::Refresh(DisplayTargetView::Photo { date, image, caption }) => seq![
            ("action"@, LogValueView::Text("RefreshPhoto"@)),
            cause,
            ("date"@, LogValueView::Text(spec_date_text(date))),
            ("image"@, LogValueView::Text(image)),
            ("caption"@, LogValueView::Text(caption)),
        ],
        DisplayActionView::Refresh(DisplayTargetView::Page { date, title, message, hint, detail }) => seq![
            ("action"@, LogValueView::Text("RefreshPage"@)),
            cause,
            ("date"@, LogValueView::Text(spec_date_text(date))),
            ("title"@, LogValueView::Text(title)),
            ("message"@, LogValueView::Text(message)),
            ("hint"@, LogValueView::Text(hint)),
            ("detail"@, LogValueView::Text(detail)),
        ],
    }
}

/// Adds the data of a display decision to `fields`.
pub fn append_display_decision_data(fields: &mut Vec<LogField>, decision: &DisplayDecision)
    ensures
        fields_view(final(fields)@) == fields_view(old(fields)@) + spec_display_decision_data(decision@),
{
    let ghost before = fields_view(fields@);
    let cause = display_cause_label(decision.cause);
    match &decision.action {
        DisplayAction::Keep => {
            push_field(fields, text_field("action", "Keep"));
            push_field(fields, text_field("cause", cause));
        },
        DisplayAction::Refresh(DisplayTarget::Photo { date, image, caption }) => {
            push_field(fields, text_field("action", "RefreshPhoto"));
            push_field(fields, text_field("cause", cause));
            let date = date_text(*date);
            push_field(fields, text_field("date", date.as_str()));
            push_field(fields, text_field("image", image.as_str()));
            push_field(fields, text_field("caption", caption.as_str()));
        },
        DisplayAction::Refresh(DisplayTarget::Page { date, title, message, hint, detail }) => {
            push_field(fields, text_field("action", "RefreshPage"));
            push_field(fields, text_field("cause", cause));
            let date = date_text(*date);
            push_field(fields, text_field("date", date.as_str()));
            push_field(fields, text_field("title", title.as_str()));
            push_field(fields, text_field("message", message.as_str()));
            push_field(fields, text_field("hint", hint.as_str()));
            push_field(fields, text_field("detail", detail.as_str()));
        },
    }
    assert(fields_view(fields@) =~= before + spec_display_decision_data(decision@));
}

pub open spec fn entry_view(
    level: DiagnosticLevel,
    event: Seq<char>,
    message: Seq<char>,
    data: Seq<(Seq<char>, LogValueView)>,
) -> LogEntryView {
    LogEntryView { level, event, message, data }
}

/// The log entries of a finished cycle: its outcome, the sync decision, the
/// sync failure when there was one, the display decision, and when the next
/// run is, with whether the frame restarts (on external power) or sleeps.
pub open spec fn spec_cycle_log_entries(cycle: DeviceCycleResult, next_run_epoch_seconds: u64, wait_seconds: u64) -> Seq<
    LogEntryView,
> {
    let outcome = entry_view(
        DiagnosticLevel::Info,
        "cycle"@,
        "device cycle completed"@,
        seq![("outcome"@, LogValueView::Text(spec_outcome_label(cycle.outcome)))],
    );
    let sync = entry_view(
        DiagnosticLevel::Info,
        "sync"@,
        "sync decision resolved"@,
        seq![
            ("action"@, LogValueView::Text(spec_sync_action_label(cycle.sync_decision.action))),
            ("cause"@, LogValueView::Text(spec_sync_cause_label(cycle.sync_decision.cause))),
            ("attempted"@, LogValueView::Flag(cycle.sync_attempted)),
            ("succeeded"@, LogValueView::Flag(cycle.sync_succeeded)),
        ] + spec_sync_error_data(cycle),
    );
    let failure = entry_view(DiagnosticLevel::Warn, "sync"@, "sync failed"@, spec_sync_error_data(cycle));
    let display = entry_view(
        DiagnosticLevel::Info,
        "display"@,
        "display decision resolved"@,
        spec_display_decision_data(cycle.display_decision@) + seq![
            ("refresh_attempted"@, LogValueView::Flag(cycle.refresh_attempted)),
            ("refresh_succeeded"@, LogValueView::Flag(cycle.refresh_succeeded)),
        ],
    );
    let next = entry_view(
        DiagnosticLevel::Info,
        "next"@,
        "next run scheduled"@,
        seq![
            ("at"@, LogValueView::Number(next_run_epoch_seconds)),
            ("wait"@, LogValueView::Number(wait_seconds)),
            (
                "mode"@,
                LogValueView::Text(
                    if cycle.battery.spec_externally_powered() {
                        "restart"@
                    } else {
                        "deep-sleep"@
                    },
                ),
            ),
        ],
    );
    let head = seq![outcome, sync];
    let middle = if cycle.sync_error is Some {
        head.push(failure)
    } else {
        head
    };
    middle + seq![display, next]
}

fn entry(level: DiagnosticLevel, event: &str, message: &str, data: Vec<LogField>) -> (entry: LogEntry)
    ensures
        entry@ == entry_view(level, event@, message@, fields_view(data@)),
{
    LogEntry { level, event: String::from_str(event), message: String::from_str(message), data }
}

fn push_entry(entries: &mut Vec<LogEntry>, entry: LogEntry)
    ensures
        final(entries)@.map_values(|e: LogEntry| e@) == old(entries)@.map_values(|e: LogEntry| e@).push(entry@),
{
    let ghost before = entries@;
    entries.push(entry);
    assert(entries@.map_values(|e: LogEntry| e@) =~= before.map_values(|e: LogEntry| e@).push(entry@));
}

/// The entries a finished cycle writes to the diagnostic log.
pub fn cycle_log_entries(cycle: &DeviceCycleResult, next_run_epoch_seconds: u64, wait_seconds: u64) -> (entries: Vec<
    LogEntry,
>)
    ensures
        entries@.map_values(|e: LogEntry| e@) == spec_cycle_log_entries(*cycle, next_run_epoch_seconds, wait_seconds),
{
    let ghost spec = spec_cycle_log_entries(*cycle, next_run_epoch_seconds, wait_seconds);
    let mut entries: Vec<LogEntry> = Vec::new();

    let mut outcome: Vec<LogField> = Vec::new();
    push_field(&mut outcome, text_field("outcome", outcome_label(cycle.outcome)));
    assert(fields_view(outcome@) =~= seq![("outcome"@, LogValueView::Text(spec_outcome_label(cycle.outcome)))]);
    push_entry(&mut entries, entry(DiagnosticLevel::Info, "cycle", "device cycle completed", outcome));
    assert(entries@.map_values(|e: LogEntry| e@) =~= spec.take(1));

    let mut sync: Vec<LogField> = Vec::new();
    push_field(&mut sync, text_field("action", sync_action_label(cycle.sync_decision.action)));
    push_field(&mut sync, text_field("cause", sync_cause_label(cycle.sync_decision.cause)));
    push_field(&mut sync, flag_field("attempted", cycle.sync_attempted));
    push_field(&mut sync, flag_field("succeeded", cycle.sync_succeeded));
    assert(fields_view(sync@) =~= seq![
        ("action"@, LogValueView::Text(spec_sync_action_label(cycle.sync_decision.action))),
        ("cause"@, LogValueView::Text(spec_sync_cause_label(cycle.sync_decision.cause))),
        ("attempted"@, LogValueView::Flag(cycle.sync_attempted)),
        ("succeeded"@, LogValueView::Flag(cycle.sync_succeeded)),
    ]);
    append_sync_error_data(&mut sync, cycle);
    push_entry(&mut entries, entry(DiagnosticLevel::Info, "sync", "sync decision resolved", sync));
    assert(entries@.map_values(|e: LogEntry| e@) =~= spec.take(2));

    if cycle.sync_error.is_some() {
        let mut failure: Vec<LogField> = Vec::new();
        append_sync_error_data(&mut failure, cycle);
        assert(fields_view(failure@) =~= spec_sync_error_data(*cycle));
        push_entry(&mut entries, entry(DiagnosticLevel::Warn, "sync", "sync failed", failure));
        assert(entries@.map_values(|e: LogEntry| e@) =~= spec.take(3));
    }
    let ghost shown: int = entries@.len() as int;

    let mut display: Vec<LogField> = Vec::new();
    append_display_decision_data(&mut display, &cycle.display_decision);
    push_field(&mut display, flag_field("refresh_attempted", cycle.refresh_attempted));
    push_field(&mut display, flag_field("refresh_succeeded", cycle.refresh_succeeded));
    assert(fields_view(display@) =~= spec_display_decision_data(cycle.display_decision@) + seq![
        ("refresh_attempted"@, LogValueView::Flag(cycle.refresh_attempted)),
        ("refresh_succeeded"@, LogValueView::Flag(cycle.refresh_succeeded)),
    ]);
    push_entry(&mut entries, entry(DiagnosticLevel::Info, "display", "display decision resolved", display));
    assert(entries@.map_values(|e: LogEntry| e@) =~= spec.take(shown + 1));

    let mut next: Vec<LogField> = Vec::new();
    push_field(&mut next, number_field("at", next_run_epoch_seconds));
    push_field(&mut next, number_field("wait", wait_seconds));
    let mode = if cycle.battery.externally_powered() {
        "restart"
    } else {
        "deep-sleep"
    };
    push_field(&mut next, text_field("mode", mode));
    assert(fields_view(next@) =~= seq![
        ("at"@, LogValueView::Number(next_run_epoch_seconds)),
        ("wait"@, LogValueView::Number(wait_seconds)),
        (
            "mode"@,
            LogValueView::Text(
                if cycle.battery.spec_externally_powered() {
                    "restart"@
                } else {
                    "deep-sleep"@
                },
            ),
        ),
    ]);
    push_entry(&mut entries, entry(DiagnosticLevel::Info, "next", "next run scheduled", next));
    assert(entries@.map_values(|e: LogEntry| e@) =~= spec.take(shown + 2));
    assert(spec.len() == shown + 2);
    assert(spec.take(shown + 2) =~= spec);
    entries
}

} // verus!
