use crate::model::{clone_option_string, DisplayState, LocalDate, Plan};
use crate::render::RenderNotice;
use vstd::prelude::*;

verus! {

/// Why the chip woke up.
#[derive(Clone, Copy, Debug, PartialEq, Eq, Structural)]
pub enum WakeReason {
    Startup,
    Timer,
    Button,
    External,
    Unknown,
    ManualButton,
}

/// Why the panel was redrawn.
#[derive(Clone, Copy, Debug, PartialEq, Eq, Structural)]
pub enum RefreshReason {
    FirstBoot,
    PlanChanged,
    OverlayChanged,
    NoticeChanged,
    ErrorPage,
    DisplayItemChanged,
}

/// What the panel shows, kept across deep sleep: the date it was drawn for, the photo and
/// the caption (no photo when a page was drawn), and the notice.
#[derive(Debug, PartialEq, Eq)]
pub struct PersistentDeviceState {
    pub date: Option<LocalDate>,
    pub image: Option<String>,
    pub caption: Option<String>,
    pub notice: Option<RenderNotice>,
}

impl Clone for PersistentDeviceState {
    fn clone(&self) -> (result: Self)
        ensures
            result == *self,
    {
        PersistentDeviceState {
            date: self.date,
            image: match &self.image {
                Some(image) => Some(image.clone()),
                None => None,
            },
            caption: match &self.caption {
                Some(caption) => Some(caption.clone()),
                None => None,
            },
            notice: self.notice,
        }
    }
}

impl Default for PersistentDeviceState {
    fn default() -> (result: Self)
        ensures
            result == PersistentDeviceState::empty(),
    {
        Self::new()
    }
}

pub open spec fn opt_string_is(value: Option<String>, expected: String) -> bool {
    value matches Some(s) && s@ == expected@
}

impl PersistentDeviceState {
    pub open spec fn empty() -> PersistentDeviceState {
        PersistentDeviceState { date: None, image: None, caption: None, notice: None }
    }

    /// The state holds `plan`'s photo and caption, drawn for the date `date`.
    pub open spec fn shows(self, date: LocalDate, plan: Plan) -> bool {
        &&& self.date == Some(date)
        &&& opt_string_is(self.image, plan.image)
        &&& opt_string_is(self.caption, plan.caption)
    }

    pub fn new() -> (result: Self)
        ensures
            result == Self::empty(),
    {
        PersistentDeviceState { date: None, image: None, caption: None, notice: None }
    }

    pub fn from_plan(plan: &Plan, notice: Option<RenderNotice>) -> (result: Self)
        ensures
            result.shows(plan.date, *plan),
            result.notice == notice,
    {
        PersistentDeviceState {
            date: Some(plan.date),
            image: Some(plan.image.clone()),
            caption: Some(plan.caption.clone()),
            notice,
        }
    }

    pub fn set(&mut self, plan: &Plan, notice: Option<RenderNotice>)
        ensures
            final(self).shows(plan.date, *plan),
            final(self).notice == notice,
    {
        *self = Self::from_plan(plan, notice);
    }

    pub fn matches_plan(&self, plan: &Plan) -> (result: bool)
        ensures
            result == self.shows(plan.date, *plan),
    {
        self.matches_display(plan.date, plan)
    }

    /// The plan that the state records; a missing caption reads as empty.
    pub fn to_plan(&self) -> (result: Option<Plan>)
        ensures
            result is Some <==> (self.date is Some && self.image is Some),
            result matches Some(plan) ==> {
                &&& Some(plan.date) == self.date
                &&& opt_string_is(self.image, plan.image)
                &&& match self.caption {
                    Some(caption) => plan.caption@ == caption@,
                    None => plan.caption@ == Seq::<char>::empty(),
                }
            },
    {
        let date = match self.date {
            Some(date) => date,
            None => return None,
        };
        let image = match &self.image {
            Some(image) => image.clone(),
            None => return None,
        };
        let caption = match &self.caption {
            Some(caption) => caption.clone(),
            None => String::new(),
        };
        Some(Plan { date, image, caption })
    }

    /// The state after `plan`'s photo was drawn for `date`.
    pub fn from_display(date: LocalDate, plan: &Plan) -> (result: Self)
        ensures
            result.shows(date, *plan),
            result.notice is None,
    {
        PersistentDeviceState {
            date: Some(date),
            image: Some(plan.image.clone()),
            caption: Some(plan.caption.clone()),
            notice: None,
        }
    }

    pub fn matches_display(&self, date: LocalDate, plan: &Plan) -> (result: bool)
        ensures
            result == self.shows(date, *plan),
    {
        if self.date != Some(date) {
            return false;
        }
        let image_matches = match &self.image {
            Some(image) => *image == plan.image,
            None => false,
        };
        let caption_matches = match &self.caption {
            Some(caption) => *caption == plan.caption,
            None => false,
        };
        image_matches && caption_matches
    }

    pub fn set_display(&mut self, date: LocalDate, plan: &Plan)
        ensures
            final(self).shows(date, *plan),
            final(self).notice is None,
    {
        *self = Self::from_display(date, plan);
    }

    pub open spec fn page_state(date: LocalDate) -> PersistentDeviceState {
        PersistentDeviceState { date: Some(date), image: None, caption: None, notice: None }
    }

    /// The state after a full-screen page was drawn for `date`: no photo is on the panel.
    pub fn set_page(&mut self, date: LocalDate)
        ensures
            *final(self) == Self::page_state(date),
    {
        *self = PersistentDeviceState { date: Some(date), image: None, caption: None, notice: None };
    }
}

/// The display part of a state file written by an earlier version.
#[derive(Debug, PartialEq, Eq)]
pub struct LegacyDisplay {
    pub date: Option<LocalDate>,
    pub image: Option<String>,
    pub caption: Option<String>,
}

/// The fields a stored state file may hold: the current flat ones and those of
/// earlier versions.
#[derive(Debug, PartialEq, Eq)]
pub struct StoredDeviceState {
    pub date: Option<LocalDate>,
    pub image: Option<String>,
    pub caption: Option<String>,
    pub notice: Option<RenderNotice>,
    pub current_display: Option<LegacyDisplay>,
    pub current_notice: Option<RenderNotice>,
}

/// A flat field, or else the same field of the earlier display record.
pub open spec fn field_or_legacy<T>(field: Option<T>, legacy: Option<T>) -> Option<T> {
    match field {
        Some(value) => Some(value),
        None => legacy,
    }
}

fn string_or_legacy(field: Option<String>, legacy: &Option<LegacyDisplay>, caption: bool) -> (value: Option<String>)
    ensures
        value == field_or_legacy(
            field,
            match legacy {
                Some(display) => if caption {
                    display.caption
                } else {
                    display.image
                },
                None => None,
            },
        ),
{
    match field {
        Some(value) => Some(value),
        None => match legacy {
            Some(display) => if caption {
                clone_option_string(&display.caption)
            } else {
                clone_option_string(&display.image)
            },
            None => None,
        },
    }
}

impl PersistentDeviceState {
    /// Reads a stored state: each flat field, or when it is absent, the same
    /// field of an earlier version's display record and notice.
    pub fn from_stored(stored: StoredDeviceState) -> (state: Self)
        ensures
            state.date == field_or_legacy(
                stored.date,
                match stored.current_display {
                    Some(display) => display.date,
                    None => None,
                },
            ),
            state.image == field_or_legacy(
                stored.image,
                match stored.current_display {
                    Some(display) => display.image,
                    None => None,
                },
            ),
            state.caption == field_or_legacy(
                stored.caption,
                match stored.current_display {
                    Some(display) => display.caption,
                    None => None,
                },
            ),
            state.notice == field_or_legacy(stored.notice, stored.current_notice),
    {
        let legacy = stored.current_display;
        let date = match stored.date {
            Some(date) => Some(date),
            None => match &legacy {
                Some(display) => display.date,
                None => None,
            },
        };
        let image = string_or_legacy(stored.image, &legacy, false);
        let caption = string_or_legacy(stored.caption, &legacy, true);
        let notice = match stored.notice {
            Some(notice) => Some(notice),
            None => stored.current_notice,
        };
        PersistentDeviceState { date, image, caption, notice }
    }
}

/// The date of the last successful cloud sync.
#[derive(Clone, Copy, Debug, Default, PartialEq, Eq, Structural)]
pub struct PersistentSyncState {
    pub date: Option<LocalDate>,
}


/// How much of the memory card the cached images take.
#[derive(Clone, Copy, Debug, Default, PartialEq, Eq, Structural)]
pub struct CacheState {
    pub resource_count: u32,
    pub used_bytes: u64,
}

/// What the device keeps about itself across deep sleep: why it last woke,
/// what the screen shows and why it was last drawn, the last sync and its
/// error, and the state of the image cache.
#[derive(Debug, PartialEq, Eq)]
pub struct DeviceRecord {
    pub last_wake_reason: Option<WakeReason>,
    pub current_display: DisplayState,
    pub last_refresh_reason: Option<RefreshReason>,
    pub last_successful_sync_epoch_seconds: Option<u64>,
    pub last_sync_error: Option<String>,
    pub cache: CacheState,
}

impl Clone for DeviceRecord {
    fn clone(&self) -> (result: Self)
        ensures
            result == *self,
    {
        DeviceRecord {
            last_wake_reason: self.last_wake_reason,
            current_display: self.current_display.clone(),
            last_refresh_reason: self.last_refresh_reason,
            last_successful_sync_epoch_seconds: self.last_successful_sync_epoch_seconds,
            last_sync_error: clone_option_string(&self.last_sync_error),
            cache: self.cache,
        }
    }
}

impl Default for DeviceRecord {
    fn default() -> (record: Self)
        ensures
            record.last_wake_reason is None,
            record.current_display == (DisplayState {
                plan_id: None,
                plan_content_hash: None,
                date: None,
                image_sha256: None,
                image_index: 0,
                caption: None,
                refreshed_at_unix_secs: None,
            }),
            record.last_refresh_reason is None,
            record.last_successful_sync_epoch_seconds is None,
            record.last_sync_error is None,
            record.cache == (CacheState { resource_count: 0, used_bytes: 0 }),
    {
        DeviceRecord {
            last_wake_reason: None,
            current_display: DisplayState::default(),
            last_refresh_reason: None,
            last_successful_sync_epoch_seconds: None,
            last_sync_error: None,
            cache: CacheState { resource_count: 0, used_bytes: 0 },
        }
    }
}

impl DeviceRecord {
    /// What the screen shows.
    pub fn display_state(&self) -> (state: DisplayState)
        ensures
            state == self.current_display,
    {
        self.current_display.clone()
    }

    /// Records what the screen now shows.
    pub fn set_current_display(&mut self, state: &DisplayState)
        ensures
            *final(self) == (DeviceRecord { current_display: *state, ..*old(self) }),
    {
        self.current_display = state.clone();
    }
}

} // verus!
