use crate::model::{spec_parse_date, string_views, LocalDate};
use crate::server::requests::{
    json_string_list, normalized_tags, parse_json_strings, spec_normalized_tags, spec_parse_days, spec_valid_sha256,
    validate_sha256,
};
use crate::render::text::chars_of;
use crate::text::{spec_trim, trim};
use vstd::prelude::*;

verus! {

/// How a plan picks its photo: one fixed image, or a random ready image with
/// all of the plan's tags.
#[derive(Clone, Copy, Debug, PartialEq, Eq, Structural)]
pub enum PlanType {
    Fixed,
    Random,
}

pub open spec fn spec_plan_type_str(plan_type: PlanType) -> Seq<char> {
    match plan_type {
        PlanType::Fixed => "fixed"@,
        PlanType::Random => "random"@,
    }
}

/// The word a plan type is stored as.
pub fn plan_type_str(plan_type: PlanType) -> (text: &'static str)
    ensures
        text@ == spec_plan_type_str(plan_type),
{
    match plan_type {
        PlanType::Fixed => "fixed",
        PlanType::Random => "random",
    }
}

pub open spec fn spec_plan_type_from_str(text: Seq<char>) -> Option<PlanType> {
    if text == "fixed"@ {
        Some(PlanType::Fixed)
    } else if text == "random"@ {
        Some(PlanType::Random)
    } else {
        None
    }
}

/// The plan type stored as `text`, if it is one.
pub fn plan_type_from_str(text: &str) -> (plan_type: Option<PlanType>)
    ensures
        plan_type == spec_plan_type_from_str(text@),
{
    let given = String::from_str(text);
    if given == String::from_str("fixed") {
        Some(PlanType::Fixed)
    } else if given == String::from_str("random") {
        Some(PlanType::Random)
    } else {
        None
    }
}

/// A plan as the server keeps it: one per date.
#[derive(Debug, PartialEq, Eq)]
pub struct Plan {
    pub date: LocalDate,
    pub caption: String,
    pub plan_type: PlanType,
    pub image: String,
    pub tags: Vec<String>,
}

/// Why a plan request was refused.
#[derive(Clone, Copy, Debug, PartialEq, Eq, Structural)]
pub enum PlanRequestError {
    EmptyDate,
    InvalidDate,
    EndBeforeStart,
    EmptyCaption,
    InvalidImage,
    EmptyTags,
}

impl PlanRequestError {
    pub open spec fn spec_message(self) -> Seq<char> {
        match self {
            PlanRequestError::EmptyDate => "计划日期不能为空"@,
            PlanRequestError::InvalidDate => "计划日期格式应为 YYYY-MM-DD"@,
            PlanRequestError::EndBeforeStart => "计划结束日期不能早于开始日期"@,
            PlanRequestError::EmptyCaption => "计划标题不能为空"@,
            PlanRequestError::InvalidImage => "图片标识格式不正确"@,
            PlanRequestError::EmptyTags => "随机计划标签不能为空"@,
        }
    }

    /// The message the administrator sees.
    pub fn message(self) -> (message: &'static str)
        ensures
            message@ == self.spec_message(),
    {
        match self {
            PlanRequestError::EmptyDate => "计划日期不能为空",
            PlanRequestError::InvalidDate => "计划日期格式应为 YYYY-MM-DD",
            PlanRequestError::EndBeforeStart => "计划结束日期不能早于开始日期",
            PlanRequestError::EmptyCaption => "计划标题不能为空",
            PlanRequestError::InvalidImage => "图片标识格式不正确",
            PlanRequestError::EmptyTags => "随机计划标签不能为空",
        }
    }
}

/// A plan date: not blank, and `YYYY-MM-DD` naming a real day.
pub open spec fn spec_parse_plan_date(text: Seq<char>) -> Result<LocalDate, PlanRequestError> {
    if spec_trim(text).len() == 0 {
        Err(PlanRequestError::EmptyDate)
    } else {
        match spec_parse_date(text) {
            Some((year, month, day)) => Ok(LocalDate { year: year as u16, month: month as u8, day: day as u8 }),
            None => Err(PlanRequestError::InvalidDate),
        }
    }
}

/// Reads the date of a plan from a request.
pub fn parse_plan_date(text: &str) -> (date: Result<LocalDate, PlanRequestError>)
    ensures
        date == spec_parse_plan_date(text@),
{
    if trim(text).unicode_len() == 0 {
        return Err(PlanRequestError::EmptyDate);
    }
    match LocalDate::parse(text) {
        Ok(date) => Ok(date),
        Err(_) => Err(PlanRequestError::InvalidDate),
    }
}

/// `date` moved `days` days on.
pub open spec fn spec_add_days(date: LocalDate, days: nat) -> LocalDate
    decreases days,
{
    if days == 0 {
        date
    } else {
        spec_add_days(date, (days - 1) as nat).spec_next_day()
    }
}

pub open spec fn opt_view(value: Option<&str>) -> Option<Seq<char>> {
    match value {
        Some(text) => Some(text@),
        None => None,
    }
}

/// The dates a plan listing covers: `start` to `end` when both are given
/// (and in order), otherwise `days` days from `today`.
pub open spec fn spec_parse_plan_range(
    start: Option<Seq<char>>,
    end: Option<Seq<char>>,
    days: Option<Seq<char>>,
    today: LocalDate,
) -> Result<(LocalDate, LocalDate), PlanRequestError> {
    if start is Some && end is Some {
        match spec_parse_plan_date(start.unwrap()) {
            Err(error) => Err(error),
            Ok(first) => match spec_parse_plan_date(end.unwrap()) {
                Err(error) => Err(error),
                Ok(last) => if first.ordinal() > last.ordinal() {
                    Err(PlanRequestError::EndBeforeStart)
                } else {
                    Ok((first, last))
                },
            },
        }
    } else {
        Ok((today, spec_add_days(today, (spec_parse_days(days) - 1) as nat)))
    }
}

/// Reads the dates of a plan listing.
pub fn parse_plan_range(start: Option<&str>, end: Option<&str>, days: Option<&str>, today: LocalDate) -> (range:
    Result<(LocalDate, LocalDate), PlanRequestError>)
    ensures
        range == spec_parse_plan_range(opt_view(start), opt_view(end), opt_view(days), today),
{
    if let (Some(start), Some(end)) = (start, end) {
        let first = parse_plan_date(start)?;
        let last = parse_plan_date(end)?;
        if last.is_before(&first) {
            return Err(PlanRequestError::EndBeforeStart);
        }
        return Ok((first, last));
    }
    let count = crate::server::requests::parse_days(days);
    let mut last = today;
    let mut added: u32 = 0;
    while added + 1 < count
        invariant
            1 <= count <= 7,
            added + 1 <= count,
            last == spec_add_days(today, added as nat),
        decreases count - added,
    {
        last = last.next_day();
        added = added + 1;
    }
    Ok((today, last))
}

/// A plan can be saved: its caption is not blank; a fixed plan names no image
/// or a valid one; a random plan has at least one tag.
pub open spec fn spec_validate_plan_payload(plan: Plan) -> Result<(), PlanRequestError> {
    if spec_trim(plan.caption@).len() == 0 {
        Err(PlanRequestError::EmptyCaption)
    } else {
        match plan.plan_type {
            PlanType::Fixed => if plan.image@.len() != 0 && !spec_valid_sha256(plan.image@) {
                Err(PlanRequestError::InvalidImage)
            } else {
                Ok(())
            },
            PlanType::Random => if spec_normalized_tags(string_views(plan.tags@)).len() == 0 {
                Err(PlanRequestError::EmptyTags)
            } else {
                Ok(())
            },
        }
    }
}

/// Checks a plan sent by the administrator.
pub fn validate_plan_payload(plan: &Plan) -> (result: Result<(), PlanRequestError>)
    ensures
        result == spec_validate_plan_payload(*plan),
{
    if trim(plan.caption.as_str()).unicode_len() == 0 {
        return Err(PlanRequestError::EmptyCaption);
    }
    match plan.plan_type {
        PlanType::Fixed => {
            if plan.image.as_str().unicode_len() != 0 && !validate_sha256(plan.image.as_str()) {
                return Err(PlanRequestError::InvalidImage);
            }
        },
        PlanType::Random => {
            if normalized_tags(&plan.tags).len() == 0 {
                return Err(PlanRequestError::EmptyTags);
            }
        },
    }
    Ok(())
}

/// A plan as it is stored: the caption trimmed, the tags normalised, and only
/// what its type uses kept (no tags for a fixed plan, no image for a random one).
pub open spec fn normalized_plan_fields(plan: Plan, caption: Seq<char>, image: Seq<char>, tags: Seq<Seq<char>>) -> bool {
    &&& caption == spec_trim(plan.caption@)
    &&& image == (if plan.plan_type == PlanType::Random {
        Seq::empty()
    } else {
        plan.image@
    })
    &&& tags == (if plan.plan_type == PlanType::Fixed {
        Seq::empty()
    } else {
        spec_normalized_tags(string_views(plan.tags@))
    })
}

/// Prepares a plan for storage.
pub fn normalize_plan(plan: Plan) -> (normalized: Plan)
    ensures
        normalized.date == plan.date,
        normalized.plan_type == plan.plan_type,
        normalized_plan_fields(plan, normalized.caption@, normalized.image@, string_views(normalized.tags@)),
{
    let caption = trim(plan.caption.as_str()).to_string();
    let tags = match plan.plan_type {
        PlanType::Fixed => Vec::new(),
        PlanType::Random => normalized_tags(&plan.tags),
    };
    let image = match plan.plan_type {
        PlanType::Fixed => plan.image,
        PlanType::Random => String::new(),
    };
    proof {
        assert(string_views(Seq::<String>::empty()) =~= Seq::<Seq<char>>::empty());
    }
    Plan { date: plan.date, caption, plan_type: plan.plan_type, image, tags }
}

/// What a viewer sees of a stored plan: a fixed plan only once its image is
/// ready, a random plan as a fixed one with the ready image drawn for it, if
/// any; the tags are not shown. This is the image of the plan as shown, if it
/// is shown.
pub open spec fn spec_user_plan_image(plan: Plan, fixed_image_ready: bool, random_image: Option<Seq<char>>) -> Option<
    Seq<char>,
> {
    match plan.plan_type {
        PlanType::Fixed => if fixed_image_ready {
            Some(plan.image@)
        } else {
            None
        },
        PlanType::Random => random_image,
    }
}

/// Turns a stored plan into what a viewer sees, given whether a fixed plan's
/// image is ready and the image drawn for a random plan.
pub fn user_plan(plan: Plan, fixed_image_ready: bool, random_image: Option<String>) -> (shown: Option<Plan>)
    ensures
        match spec_user_plan_image(plan, fixed_image_ready, opt_string_view(random_image)) {
            Some(image) => shown matches Some(p) && p.date == plan.date && p.caption == plan.caption && p.plan_type
                == PlanType::Fixed && p.image@ == image && p.tags@.len() == 0,
            None => shown is None,
        },
{
    match plan.plan_type {
        PlanType::Fixed => {
            if fixed_image_ready {
                Some(Plan { tags: Vec::new(), ..plan })
            } else {
                None
            }
        },
        PlanType::Random => match random_image {
            Some(image) => Some(Plan { image, tags: Vec::new(), plan_type: PlanType::Fixed, ..plan }),
            None => None,
        },
    }
}

pub open spec fn opt_string_view(value: Option<String>) -> Option<Seq<char>> {
    match value {
        Some(text) => Some(text@),
        None => None,
    }
}


/// Why a stored plan could not be read back.
#[derive(Clone, Copy, Debug, PartialEq, Eq, Structural)]
pub enum StoredPlanError {
    InvalidDate,
    InvalidType,
    InvalidTags,
}

/// Reads back a stored plan: its date as `YYYY-MM-DD`, its type as stored,
/// and its tags as a JSON array of strings; the caption and image are kept.
pub fn plan_from_row(
    date: &str,
    caption: String,
    plan_type: &str,
    image: String,
    tags: &str,
) -> (plan: Result<Plan, StoredPlanError>)
    ensures
        match spec_parse_date(date@) {
            None => plan == Err::<Plan, StoredPlanError>(StoredPlanError::InvalidDate),
            Some((year, month, day)) => match spec_plan_type_from_str(plan_type@) {
                None => plan == Err::<Plan, StoredPlanError>(StoredPlanError::InvalidType),
                Some(kind) => match json_string_list(tags@) {
                    None => plan == Err::<Plan, StoredPlanError>(StoredPlanError::InvalidTags),
                    Some(list) => plan matches Ok(p) && (p.date.spec_year(), p.date.spec_month(), p.date.spec_day())
                        == (year, month, day) && p.caption == caption && p.plan_type == kind && p.image == image
                        && string_views(p.tags@) == list,
                },
            },
        },
{
    let date = match LocalDate::parse(date) {
        Ok(date) => date,
        Err(_) => return Err(StoredPlanError::InvalidDate),
    };
    let plan_type = match plan_type_from_str(plan_type) {
        Some(plan_type) => plan_type,
        None => return Err(StoredPlanError::InvalidType),
    };
    let tags = match parse_json_strings(tags) {
        Ok(tags) => tags,
        Err(_) => return Err(StoredPlanError::InvalidTags),
    };
    Ok(Plan { date, caption, plan_type, image, tags })
}

/// What storing a plan still needs from the image store.
#[derive(Clone, Copy, Debug, PartialEq, Eq, Structural)]
pub enum PlanSelectionCheck {
    /// Nothing: the plan can be stored.
    Accepted,
    /// A fixed plan names an image, which must be known to the store.
    ImageMustExist,
    /// A random plan has no tag left once its tags are normalised.
    EmptyRandomTags,
}

pub open spec fn spec_plan_selection_check(plan: Plan) -> PlanSelectionCheck {
    match plan.plan_type {
        PlanType::Fixed => if plan.image@.len() > 0 {
            PlanSelectionCheck::ImageMustExist
        } else {
            PlanSelectionCheck::Accepted
        },
        PlanType::Random => if spec_normalized_tags(string_views(plan.tags@)).len() == 0 {
            PlanSelectionCheck::EmptyRandomTags
        } else {
            PlanSelectionCheck::Accepted
        },
    }
}

/// Decides what a plan's selection of images needs before it is stored.
pub fn plan_selection_check(plan: &Plan) -> (check: PlanSelectionCheck)
    ensures
        check == spec_plan_selection_check(*plan),
{
    match plan.plan_type {
        PlanType::Fixed => if plan.image.as_str().unicode_len() > 0 {
            PlanSelectionCheck::ImageMustExist
        } else {
            PlanSelectionCheck::Accepted
        },
        PlanType::Random => if normalized_tags(&plan.tags).len() == 0 {
            PlanSelectionCheck::EmptyRandomTags
        } else {
            PlanSelectionCheck::Accepted
        },
    }
}

/// `text` begins with `prefix`.
pub open spec fn text_starts_with(text: Seq<char>, prefix: Seq<char>) -> bool {
    text.len() >= prefix.len() && text.subrange(0, prefix.len() as int) == prefix
}

/// `part` occurs somewhere in `text`.
pub open spec fn text_contains(text: Seq<char>, part: Seq<char>) -> bool {
    exists|start: int| 0 <= start <= text.len() - part.len() && #[trigger] text.subrange(start, start + part.len()) == part
}

/// Whether `part` occurs in `text` from position `start` on.
fn occurs_at(text: &Vec<char>, part: &Vec<char>, start: usize) -> (found: bool)
    requires
        start + part@.len() <= text@.len(),
    ensures
        found == (text@.subrange(start as int, start + part@.len()) == part@),
{
    let end = text.len();
    let mut i: usize = 0;
    while i < part.len()
        invariant
            end == text@.len(),
            start + part@.len() <= text@.len(),
            i <= part@.len(),
            forall|j: int| 0 <= j < i ==> text@[start + j] == part@[j],
        decreases part@.len() - i,
    {
        assert(start + i < text@.len());
        if text[start + i] != part[i] {
            assert(text@.subrange(start as int, start + part@.len())[i as int] != part@[i as int]);
            return false;
        }
        i = i + 1;
    }
    assert(text@.subrange(start as int, start + part@.len()) =~= part@);
    true
}

fn starts_with_text(text: &str, prefix: &str) -> (found: bool)
    ensures
        found == text_starts_with(text@, prefix@),
{
    let text = chars_of(text);
    let prefix = chars_of(prefix);
    if text.len() < prefix.len() {
        return false;
    }
    occurs_at(&text, &prefix, 0)
}

fn contains_text(text: &str, part: &str) -> (found: bool)
    ensures
        found == text_contains(text@, part@),
{
    let haystack = chars_of(text);
    let needle = chars_of(part);
    if haystack.len() < needle.len() {
        return false;
    }
    let last = haystack.len() - needle.len();
    let mut start: usize = 0;
    loop
        invariant
            haystack@ == text@,
            needle@ == part@,
            last == text@.len() - part@.len(),
            start <= last,
            forall|s: int| 0 <= s < start ==> #[trigger] text@.subrange(s, s + part@.len()) != part@,
        decreases last - start,
    {
        if occurs_at(&haystack, &needle, start) {
            assert(text@.subrange(start as int, start + part@.len()) == part@);
            return true;
        }
        if start == last {
            assert(forall|s: int| 0 <= s <= text@.len() - part@.len() ==> #[trigger] text@.subrange(s, s + part@.len()) != part@);
            return false;
        }
        start = start + 1;
    }
}

/// How a failure of the plan store is answered.
#[derive(Clone, Copy, Debug, PartialEq, Eq, Structural)]
pub enum StoreErrorAnswer {
    /// The plan names an image the store does not hold.
    UnknownImage,
    /// Another plan already has the date.
    DuplicateDate,
    /// Anything else: an internal error.
    Internal,
}

impl StoreErrorAnswer {
    pub open spec fn spec_message(self) -> Option<Seq<char>> {
        match self {
            StoreErrorAnswer::UnknownImage => Some("请选择已有图片"@),
            StoreErrorAnswer::DuplicateDate => Some("该日期已有计划"@),
            StoreErrorAnswer::Internal => None,
        }
    }

    /// The message the administrator sees for a refused request; an internal
    /// error has none.
    pub fn message(self) -> (message: Option<&'static str>)
        ensures
            match self.spec_message() {
                Some(text) => message matches Some(m) && m@ == text,
                None => message is None,
            },
    {
        match self {
            StoreErrorAnswer::UnknownImage => Some("请选择已有图片"),
            StoreErrorAnswer::DuplicateDate => Some("该日期已有计划"),
            StoreErrorAnswer::Internal => None,
        }
    }
}

/// The answer to a store failure, by its text: an unknown image, a date that
/// already has a plan (as the store or the database's unique index says), or
/// an internal error.
pub open spec fn spec_classify_store_error(message: Seq<char>) -> StoreErrorAnswer {
    if text_starts_with(message, "Unknown image sha256:"@) {
        StoreErrorAnswer::UnknownImage
    } else if text_starts_with(message, "Plan date already exists:"@) || text_contains(
        message,
        "UNIQUE constraint failed: plans.date"@,
    ) {
        StoreErrorAnswer::DuplicateDate
    } else {
        StoreErrorAnswer::Internal
    }
}

pub fn classify_store_error(message: &str) -> (answer: StoreErrorAnswer)
    ensures
        answer == spec_classify_store_error(message@),
{
    if starts_with_text(message, "Unknown image sha256:") {
        StoreErrorAnswer::UnknownImage
    } else if starts_with_text(message, "Plan date already exists:") || contains_text(
        message,
        "UNIQUE constraint failed: plans.date",
    ) {
        StoreErrorAnswer::DuplicateDate
    } else {
        StoreErrorAnswer::Internal
    }
}

} // verus!
