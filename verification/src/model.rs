use vstd::prelude::*;

verus! {

/// A calendar date in the album's local time zone.
#[derive(Clone, Copy, Debug, PartialEq, Eq, Structural, PartialOrd, Ord, Hash)]
pub struct LocalDate {
    pub year: u16,
    pub month: u8,
    pub day: u8,
}

/// The only error that parsing a date can report.
#[derive(Clone, Copy, Debug, PartialEq, Eq, Structural)]
pub struct ParseDateError;

pub open spec fn is_leap_year(year: int) -> bool {
    (year % 4 == 0 && year % 100 != 0) || year % 400 == 0
}

pub open spec fn days_in_month(year: int, month: int) -> int {
    if month == 2 {
        if is_leap_year(year) {
            29
        } else {
            28
        }
    } else if month == 4 || month == 6 || month == 9 || month == 11 {
        30
    } else {
        31
    }
}

pub open spec fn is_valid_date(year: int, month: int, day: int) -> bool {
    1 <= month <= 12 && 1 <= day <= days_in_month(year, month)
}

pub open spec fn is_digit(c: char) -> bool {
    '0' <= c <= '9'
}

pub open spec fn digit_value(c: char) -> int {
    c as int - '0' as int
}

/// Value of the decimal digits `s[start..start + count]`.
pub open spec fn digits_value(s: Seq<char>, start: int, count: nat) -> int
    decreases count,
{
    if count == 0 {
        0
    } else {
        digits_value(s, start, (count - 1) as nat) * 10 + digit_value(s[start + count - 1])
    }
}

pub open spec fn all_digits(s: Seq<char>, start: int, count: int) -> bool {
    forall|i: int| start <= i < start + count ==> is_digit(#[trigger] s[i])
}

/// The text `YYYY-MM-DD` of a valid date, read as `(year, month, day)`.
pub open spec fn spec_parse_date(s: Seq<char>) -> Option<(int, int, int)> {
    if s.len() == 10 && all_digits(s, 0, 4) && s[4] == '-' && all_digits(s, 5, 2) && s[7] == '-'
        && all_digits(s, 8, 2) && is_valid_date(
        digits_value(s, 0, 4),
        digits_value(s, 5, 2),
        digits_value(s, 8, 2),
    ) {
        Some((digits_value(s, 0, 4), digits_value(s, 5, 2), digits_value(s, 8, 2)))
    } else {
        None
    }
}

impl LocalDate {
    pub open spec fn spec_year(self) -> int {
        self.year as int
    }

    pub open spec fn spec_month(self) -> int {
        self.month as int
    }

    pub open spec fn spec_day(self) -> int {
        self.day as int
    }

    /// Dates are ordered by year, then month, then day: this number orders them the same way.
    pub open spec fn ordinal(self) -> int {
        self.year as int * 65536 + self.month as int * 256 + self.day as int
    }

    pub open spec fn is_valid(self) -> bool {
        is_valid_date(self.year as int, self.month as int, self.day as int)
    }

    pub fn new(year: u16, month: u8, day: u8) -> (result: Option<LocalDate>)
        ensures
            result is Some <==> is_valid_date(year as int, month as int, day as int),
            result matches Some(date) ==> date.spec_year() == year && date.spec_month() == month
                && date.spec_day() == day,
    {
        if 1 <= month && month <= 12 && 1 <= day && day <= days_in_month_exec(year, month) {
            Some(LocalDate { year, month, day })
        } else {
            None
        }
    }

    pub fn year(&self) -> (result: u16)
        ensures
            result == self.spec_year(),
    {
        self.year
    }

    pub fn month(&self) -> (result: u8)
        ensures
            result == self.spec_month(),
    {
        self.month
    }

    pub fn day(&self) -> (result: u8)
        ensures
            result == self.spec_day(),
    {
        self.day
    }

    /// Parses `YYYY-MM-DD`.
    pub fn parse(text: &str) -> (result: Result<LocalDate, ParseDateError>)
        ensures
            result is Ok <==> spec_parse_date(text@) is Some,
            result matches Ok(date) ==> (date.spec_year(), date.spec_month(), date.spec_day())
                == spec_parse_date(text@).unwrap(),
    {
        let length = text.unicode_len();
        if length != 10 {
            return Err(ParseDateError);
        }
        let ghost s = text@;
        let year = match read_digits(text, 0, 4) {
            Some(value) => value,
            None => return Err(ParseDateError),
        };
        if text.get_char(4) != '-' {
            return Err(ParseDateError);
        }
        let month = match read_digits(text, 5, 2) {
            Some(value) => value,
            None => return Err(ParseDateError),
        };
        if text.get_char(7) != '-' {
            return Err(ParseDateError);
        }
        let day = match read_digits(text, 8, 2) {
            Some(value) => value,
            None => return Err(ParseDateError),
        };
        proof {
            lemma_digits_value_bound(s, 0, 4);
            lemma_digits_value_bound(s, 5, 2);
            lemma_digits_value_bound(s, 8, 2);
            lemma_pow10_small();
        }
        match LocalDate::new(year as u16, month as u8, day as u8) {
            Some(date) => Ok(date),
            None => Err(ParseDateError),
        }
    }

    /// Earlier than or equal to `other`.
    pub fn is_on_or_before(&self, other: &LocalDate) -> (result: bool)
        ensures
            result == (self.ordinal() <= other.ordinal()),
    {
        if self.year != other.year {
            self.year < other.year
        } else if self.month != other.month {
            self.month < other.month
        } else {
            self.day <= other.day
        }
    }

    /// Strictly earlier than `other`.
    pub fn is_before(&self, other: &LocalDate) -> (result: bool)
        ensures
            result == (self.ordinal() < other.ordinal()),
    {
        if self.year != other.year {
            self.year < other.year
        } else if self.month != other.month {
            self.month < other.month
        } else {
            self.day < other.day
        }
    }

    pub open spec fn spec_next_day(self) -> LocalDate {
        if (self.day as int) < days_in_month(self.year as int, self.month as int) {
            LocalDate { year: self.year, month: self.month, day: (self.day + 1) as u8 }
        } else if self.month < 12 {
            LocalDate { year: self.year, month: (self.month + 1) as u8, day: 1 }
        } else if self.year < u16::MAX {
            LocalDate { year: (self.year + 1) as u16, month: 1, day: 1 }
        } else {
            self
        }
    }

    /// The following calendar day; the last representable day has no successor and is kept.
    pub fn next_day(&self) -> (result: LocalDate)
        ensures
            result == self.spec_next_day(),
    {
        if self.day < days_in_month_exec(self.year, self.month) {
            LocalDate { year: self.year, month: self.month, day: self.day + 1 }
        } else if self.month < 12 {
            LocalDate { year: self.year, month: self.month + 1, day: 1 }
        } else if self.year < u16::MAX {
            LocalDate { year: self.year + 1, month: 1, day: 1 }
        } else {
            *self
        }
    }
}

pub fn days_in_month_exec(year: u16, month: u8) -> (result: u8)
    ensures
        result == days_in_month(year as int, month as int),
{
    if month == 2 {
        if (year % 4 == 0 && year % 100 != 0) || year % 400 == 0 {
            29
        } else {
            28
        }
    } else if month == 4 || month == 6 || month == 9 || month == 11 {
        30
    } else {
        31
    }
}

pub open spec fn pow10(count: nat) -> int
    decreases count,
{
    if count == 0 {
        1
    } else {
        10 * pow10((count - 1) as nat)
    }
}

proof fn lemma_pow10_small()
    ensures
        pow10(0) == 1,
        pow10(1) == 10,
        pow10(2) == 100,
        pow10(3) == 1000,
        pow10(4) == 10000,
{
    reveal_with_fuel(pow10, 5);
}

proof fn lemma_digits_value_bound(s: Seq<char>, start: int, count: nat)
    requires
        all_digits(s, start, count as int),
        0 <= start,
        start + count <= s.len(),
    ensures
        0 <= digits_value(s, start, count) < pow10(count),
    decreases count,
{
    if count > 0 {
        lemma_digits_value_bound(s, start, (count - 1) as nat);
        assert(is_digit(s[start + count - 1]));
        let previous = digits_value(s, start, (count - 1) as nat);
        let digit = digit_value(s[start + count - 1]);
        let bound = pow10((count - 1) as nat);
        assert(previous * 10 + digit < 10 * bound) by (nonlinear_arith)
            requires
                0 <= previous < bound,
                0 <= digit <= 9,
        ;
    }
}

fn read_digits(text: &str, start: usize, count: usize) -> (result: Option<u32>)
    requires
        count <= 4,
        start + count <= 10,
        start + count <= text@.len(),
    ensures
        result is Some <==> all_digits(text@, start as int, count as int),
        result matches Some(value) ==> value == digits_value(text@, start as int, count as nat),
{
    let mut value: u32 = 0;
    let mut index: usize = 0;
    proof {
        lemma_pow10_small();
    }
    while index < count
        invariant
            index <= count <= 4,
            start + count <= 10,
            start + count <= text@.len(),
            all_digits(text@, start as int, index as int),
            value == digits_value(text@, start as int, index as nat),
            value < pow10(index as nat),
            pow10(index as nat) <= 10000,
        decreases count - index,
    {
        let c = text.get_char(start + index);
        if !('0' <= c && c <= '9') {
            assert(!all_digits(text@, start as int, count as int)) by {
                assert(!is_digit(text@[start + index]));
            }
            return None;
        }
        proof {
            lemma_digits_value_bound(text@, start as int, index as nat);
            assert(all_digits(text@, start as int, index + 1));
        }
        assert(value * 10 + (c as u32 - '0' as u32) < 10000) by {
            lemma_digits_value_bound(text@, start as int, (index + 1) as nat);
            lemma_pow10_small();
        }
        value = value * 10 + (c as u32 - '0' as u32);
        index = index + 1;
        proof {
            lemma_pow10_small();
        }
    }
    Some(value)
}

/// A photo plan: on `date` the frame shows `image` with `caption`.
#[derive(Debug, PartialEq, Eq)]
pub struct Plan {
    pub date: LocalDate,
    pub image: String,
    pub caption: String,
}

impl Clone for Plan {
    fn clone(&self) -> (result: Self)
        ensures
            result == *self,
    {
        Plan { date: self.date, image: self.image.clone(), caption: self.caption.clone() }
    }
}

impl Plan {
    /// A plan with a fixed photo.
    pub fn fixed(date: LocalDate, caption: &str, image: &str) -> (result: Plan)
        ensures
            result.date == date,
            result.caption@ == caption@,
            result.image@ == image@,
    {
        Plan { date, image: image.to_owned(), caption: caption.to_owned() }
    }
}


/// A plan of the cloud catalogue: from `start` to `end` the frame rotates
/// through `images` with `caption`.
#[derive(Debug, PartialEq, Eq)]
pub struct PlanItem {
    pub id: u64,
    pub start: LocalDate,
    pub end: LocalDate,
    pub caption: String,
    pub images: Vec<String>,
}

/// The plans the device last received, with the hash the cloud gave them.
#[derive(Debug, PartialEq, Eq)]
pub struct PlanSnapshot {
    pub content_hash: String,
    pub plans: Vec<PlanItem>,
}

/// The images named by the plans, in plan order.
pub open spec fn plan_images(plans: Seq<PlanItem>) -> Seq<Seq<char>>
    decreases plans.len(),
{
    if plans.len() == 0 {
        Seq::empty()
    } else {
        plan_images(plans.drop_last()) + string_views(plans.last().images@)
    }
}

/// The texts of a list of strings.
pub open spec fn string_views(values: Seq<String>) -> Seq<Seq<char>> {
    values.map_values(|value: String| value@)
}

/// A sequence has no value twice.
pub open spec fn distinct_values(values: Seq<Seq<char>>) -> bool {
    forall|i: int, j: int| 0 <= i < j < values.len() ==> values[i] != values[j]
}

pub fn clone_strings(values: &Vec<String>) -> (result: Vec<String>)
    ensures
        result@ == values@,
{
    let result = values.clone();
    assert(result@ =~= values@) by {
        assert forall|i: int| 0 <= i < values@.len() implies result@[i] == values@[i] by {
            assert(cloned::<String>(values[i], result[i]));
        }
    }
    result
}

/// `value` is one of `values`.
pub fn contains_string(values: &Vec<String>, value: &str) -> (found: bool)
    ensures
        found == string_views(values@).contains(value@),
{
    let target = value.to_owned();
    let mut i: usize = 0;
    while i < values.len()
        invariant
            i <= values@.len(),
            target@ == value@,
            forall|j: int| 0 <= j < i ==> values@[j]@ != value@,
        decreases values@.len() - i,
    {
        if values[i] == target {
            assert(string_views(values@)[i as int] == value@);
            return true;
        }
        i = i + 1;
    }
    assert(!string_views(values@).contains(value@)) by {
        assert forall|j: int| 0 <= j < values@.len() implies #[trigger] string_views(values@)[j]
            != value@ by {
            assert(values@[j]@ != value@);
        }
    }
    false
}

impl Clone for PlanItem {
    fn clone(&self) -> (result: Self)
        ensures
            result.id == self.id,
            result.start == self.start,
            result.end == self.end,
            result.caption == self.caption,
            result.images@ == self.images@,
    {
        PlanItem {
            id: self.id,
            start: self.start,
            end: self.end,
            caption: self.caption.clone(),
            images: clone_strings(&self.images),
        }
    }
}

/// Two plans with the same fields.
pub open spec fn same_plan_item(a: PlanItem, b: PlanItem) -> bool {
    &&& a.id == b.id
    &&& a.start == b.start
    &&& a.end == b.end
    &&& a.caption == b.caption
    &&& a.images@ == b.images@
}

/// Two lists of plans with the same plans in the same order.
pub open spec fn same_plan_items(a: Seq<PlanItem>, b: Seq<PlanItem>) -> bool {
    &&& a.len() == b.len()
    &&& forall|i: int| 0 <= i < a.len() ==> #[trigger] same_plan_item(a[i], b[i])
}

pub proof fn lemma_same_plan_images(a: Seq<PlanItem>, b: Seq<PlanItem>)
    requires
        same_plan_items(a, b),
    ensures
        plan_images(a) == plan_images(b),
    decreases a.len(),
{
    if a.len() > 0 {
        assert(same_plan_item(a[a.len() - 1], b[b.len() - 1]));
        assert(same_plan_items(a.drop_last(), b.drop_last())) by {
            assert forall|i: int| 0 <= i < a.drop_last().len() implies #[trigger] same_plan_item(
                a.drop_last()[i],
                b.drop_last()[i],
            ) by {
                assert(same_plan_item(a[i], b[i]));
            }
        }
        lemma_same_plan_images(a.drop_last(), b.drop_last());
    }
}

pub fn clone_plan_items(plans: &Vec<PlanItem>) -> (result: Vec<PlanItem>)
    ensures
        same_plan_items(result@, plans@),
{
    let mut result: Vec<PlanItem> = Vec::new();
    let mut i: usize = 0;
    while i < plans.len()
        invariant
            i <= plans@.len(),
            result@.len() == i,
            forall|j: int| 0 <= j < i ==> #[trigger] same_plan_item(result@[j], plans@[j]),
        decreases plans@.len() - i,
    {
        result.push(plans[i].clone());
        i = i + 1;
    }
    result
}

impl Clone for PlanSnapshot {
    fn clone(&self) -> (result: Self)
        ensures
            result.content_hash == self.content_hash,
            same_plan_items(result.plans@, self.plans@),
    {
        PlanSnapshot { content_hash: self.content_hash.clone(), plans: clone_plan_items(&self.plans) }
    }
}

impl PlanSnapshot {
    /// Every image that a plan names, each once, in the order they first appear.
    pub fn referenced_resources(&self) -> (images: Vec<String>)
        ensures
            distinct_values(string_views(images@)),
            forall|value: Seq<char>|
                string_views(images@).contains(value) <==> plan_images(self.plans@).contains(value),
    {
        broadcast use vstd::seq_lib::lemma_seq_concat_contains_all_elements;
        broadcast use vstd::seq_lib::lemma_seq_contains_after_push;

        let mut images: Vec<String> = Vec::new();
        let mut p: usize = 0;
        while p < self.plans.len()
            invariant
                p <= self.plans@.len(),
                distinct_values(string_views(images@)),
                forall|value: Seq<char>|
                    string_views(images@).contains(value) <==> plan_images(self.plans@.subrange(0, p as int)).contains(
                        value,
                    ),
            decreases self.plans@.len() - p,
        {
            let plan = &self.plans[p];
            let ghost before = string_views(images@);
            assert(forall|value: Seq<char>|
                #[trigger] before.contains(value) <==> plan_images(self.plans@.subrange(0, p as int)).contains(value));
            let mut i: usize = 0;
            while i < plan.images.len()
                invariant
                    p < self.plans@.len(),
                    *plan == self.plans@[p as int],
                    i <= plan.images@.len(),
                    distinct_values(string_views(images@)),
                    forall|value: Seq<char>|
                        string_views(images@).contains(value) <==> (before.contains(value) || string_views(
                            plan.images@.subrange(0, i as int),
                        ).contains(value)),
                decreases plan.images@.len() - i,
            {
                let ghost old_view = string_views(images@);
                assert(forall|value: Seq<char>|
                    #[trigger] old_view.contains(value) <==> (before.contains(value) || string_views(
                        plan.images@.subrange(0, i as int),
                    ).contains(value)));
                let ghost x = plan.images@[i as int]@;
                assert(string_views(plan.images@.subrange(0, i + 1)) =~= string_views(
                    plan.images@.subrange(0, i as int),
                ).push(x));
                if !contains_string(&images, plan.images[i].as_str()) {
                    images.push(plan.images[i].clone());
                    assert(string_views(images@) =~= old_view.push(x));
                    assert(distinct_values(string_views(images@))) by {
                        assert forall|a: int, b: int|
                            0 <= a < b < string_views(images@).len() implies string_views(images@)[a]
                            != string_views(images@)[b] by {
                            if b == old_view.len() {
                                assert(old_view[a] == string_views(images@)[a]);
                            }
                        }
                    }
                }
                i = i + 1;
                assert forall|value: Seq<char>|
                    string_views(images@).contains(value) <==> (before.contains(value) || string_views(
                        plan.images@.subrange(0, i as int),
                    ).contains(value)) by {
                    assert(old_view.contains(value) <==> (before.contains(value) || string_views(
                        plan.images@.subrange(0, i - 1),
                    ).contains(value)));
                    vstd::seq_lib::lemma_seq_contains_after_push(
                        string_views(plan.images@.subrange(0, i - 1)),
                        x,
                        value,
                    );
                    vstd::seq_lib::lemma_seq_contains_after_push(old_view, x, value);
                    if value == x {
                        assert(string_views(images@).contains(x));
                    }
                }
            }
            proof {
                let prefix = self.plans@.subrange(0, p + 1);
                assert(prefix.drop_last() =~= self.plans@.subrange(0, p as int));
                assert(prefix.last() == *plan);
                assert(plan.images@.subrange(0, plan.images@.len() as int) =~= plan.images@);
                assert(plan_images(prefix) == plan_images(self.plans@.subrange(0, p as int)) + string_views(
                    plan.images@,
                ));
                assert forall|value: Seq<char>|
                    string_views(images@).contains(value) <==> plan_images(prefix).contains(value) by {
                    assert(before.contains(value) <==> plan_images(self.plans@.subrange(0, p as int)).contains(value));
                    vstd::seq_lib::lemma_seq_concat_contains_all_elements(
                        plan_images(self.plans@.subrange(0, p as int)),
                        string_views(plan.images@),
                        value,
                    );
                }
            }
            p = p + 1;
        }
        assert(self.plans@.subrange(0, self.plans@.len() as int) =~= self.plans@);
        images
    }
}

/// An image kept on the memory card.
#[derive(Debug, PartialEq, Eq)]
pub struct CachedResource {
    pub sha256: String,
    pub byte_size: u64,
    pub last_used_at_unix_secs: u64,
}

impl Clone for CachedResource {
    fn clone(&self) -> (result: Self)
        ensures
            result == *self,
    {
        CachedResource {
            sha256: self.sha256.clone(),
            byte_size: self.byte_size,
            last_used_at_unix_secs: self.last_used_at_unix_secs,
        }
    }
}

/// The images kept on the memory card.
#[derive(Debug, PartialEq, Eq)]
pub struct ResourceIndex {
    pub resources: Vec<CachedResource>,
}

/// The image `sha256` is among `resources`.
pub open spec fn holds_resource(resources: Seq<CachedResource>, sha256: Seq<char>) -> bool {
    exists|i: int| 0 <= i < resources.len() && (#[trigger] resources[i]).sha256@ == sha256
}

pub fn clone_resources(resources: &Vec<CachedResource>) -> (result: Vec<CachedResource>)
    ensures
        result@ == resources@,
{
    let result = resources.clone();
    assert(result@ =~= resources@) by {
        assert forall|i: int| 0 <= i < resources@.len() implies result@[i] == resources@[i] by {
            assert(cloned::<CachedResource>(resources[i], result[i]));
        }
    }
    result
}

impl Clone for ResourceIndex {
    fn clone(&self) -> (result: Self)
        ensures
            result.resources@ == self.resources@,
    {
        ResourceIndex { resources: clone_resources(&self.resources) }
    }
}

impl Default for ResourceIndex {
    fn default() -> (index: Self)
        ensures
            index.resources@ == Seq::<CachedResource>::empty(),
    {
        ResourceIndex { resources: Vec::new() }
    }
}

/// `resources` with every entry for `resource.sha256` replaced by `resource`,
/// or with `resource` added at the end when there was none.
pub open spec fn spec_upsert(resources: Seq<CachedResource>, resource: CachedResource) -> Seq<CachedResource> {
    if holds_resource(resources, resource.sha256@) {
        resources.map_values(|r: CachedResource| if r.sha256@ == resource.sha256@ { resource } else { r })
    } else {
        resources.push(resource)
    }
}

/// `resources` with the last-use time of every entry for `sha256` set to `now`.
pub open spec fn spec_touch(resources: Seq<CachedResource>, sha256: Seq<char>, now: u64) -> Seq<CachedResource> {
    resources.map_values(
        |r: CachedResource|
            if r.sha256@ == sha256 {
                CachedResource { last_used_at_unix_secs: now, ..r }
            } else {
                r
            },
    )
}

impl ResourceIndex {
    /// Whether the image `sha256` is on the card.
    pub fn contains(&self, sha256: &str) -> (found: bool)
        ensures
            found == holds_resource(self.resources@, sha256@),
    {
        let target = sha256.to_owned();
        let mut i: usize = 0;
        while i < self.resources.len()
            invariant
                i <= self.resources@.len(),
                target@ == sha256@,
                forall|j: int| 0 <= j < i ==> (#[trigger] self.resources@[j]).sha256@ != sha256@,
            decreases self.resources@.len() - i,
        {
            if self.resources[i].sha256 == target {
                return true;
            }
            i = i + 1;
        }
        false
    }

    /// Records `resource`, replacing what was known of the same image.
    pub fn upsert(&mut self, resource: CachedResource)
        ensures
            final(self).resources@ == spec_upsert(old(self).resources@, resource),
    {
        if !self.contains(resource.sha256.as_str()) {
            self.resources.push(resource);
            return;
        }
        let ghost before = self.resources@;
        let mut i: usize = 0;
        while i < self.resources.len()
            invariant
                i <= self.resources@.len(),
                self.resources@.len() == before.len(),
                forall|j: int|
                    0 <= j < self.resources@.len() ==> #[trigger] self.resources@[j] == if j < i
                        && before[j].sha256@ == resource.sha256@ {
                        resource
                    } else {
                        before[j]
                    },
            decreases self.resources@.len() - i,
        {
            if self.resources[i].sha256 == resource.sha256 {
                let replacement = resource.clone();
                self.resources.set(i, replacement);
            }
            i = i + 1;
        }
        assert(self.resources@ =~= spec_upsert(before, resource));
    }

    /// Marks the image `sha256` as used at `now`.
    pub fn touch(&mut self, sha256: &str, now: u64)
        ensures
            final(self).resources@ == spec_touch(old(self).resources@, sha256@, now),
    {
        let ghost before = self.resources@;
        let target = sha256.to_owned();
        let mut i: usize = 0;
        while i < self.resources.len()
            invariant
                i <= self.resources@.len(),
                target@ == sha256@,
                self.resources@.len() == before.len(),
                forall|j: int|
                    0 <= j < self.resources@.len() ==> #[trigger] self.resources@[j] == if j < i
                        && before[j].sha256@ == sha256@ {
                        CachedResource { last_used_at_unix_secs: now, ..before[j] }
                    } else {
                        before[j]
                    },
            decreases self.resources@.len() - i,
        {
            if self.resources[i].sha256 == target {
                let updated = CachedResource {
                    sha256: self.resources[i].sha256.clone(),
                    byte_size: self.resources[i].byte_size,
                    last_used_at_unix_secs: now,
                };
                self.resources.set(i, updated);
            }
            i = i + 1;
        }
        assert(self.resources@ =~= spec_touch(before, sha256@, now));
    }
}

/// The photo chosen for the screen: which plan, which of its images, and the caption.
#[derive(Debug, PartialEq, Eq)]
pub struct DisplayItem {
    pub plan_id: u64,
    pub plan_content_hash: Option<String>,
    pub date: LocalDate,
    pub image_sha256: String,
    pub image_index: usize,
    pub caption: String,
}

impl Clone for DisplayItem {
    fn clone(&self) -> (result: Self)
        ensures
            result == *self,
    {
        DisplayItem {
            plan_id: self.plan_id,
            plan_content_hash: match &self.plan_content_hash {
                Some(hash) => Some(hash.clone()),
                None => None,
            },
            date: self.date,
            image_sha256: self.image_sha256.clone(),
            image_index: self.image_index,
            caption: self.caption.clone(),
        }
    }
}

/// What the screen shows, as the device records it.
#[derive(Debug, PartialEq, Eq)]
pub struct DisplayState {
    pub plan_id: Option<u64>,
    pub plan_content_hash: Option<String>,
    pub date: Option<LocalDate>,
    pub image_sha256: Option<String>,
    pub image_index: usize,
    pub caption: Option<String>,
    pub refreshed_at_unix_secs: Option<u64>,
}

pub fn clone_option_string(value: &Option<String>) -> (result: Option<String>)
    ensures
        result == *value,
{
    match value {
        Some(value) => Some(value.clone()),
        None => None,
    }
}

impl Clone for DisplayState {
    fn clone(&self) -> (result: Self)
        ensures
            result == *self,
    {
        DisplayState {
            plan_id: self.plan_id,
            plan_content_hash: clone_option_string(&self.plan_content_hash),
            date: self.date,
            image_sha256: clone_option_string(&self.image_sha256),
            image_index: self.image_index,
            caption: clone_option_string(&self.caption),
            refreshed_at_unix_secs: self.refreshed_at_unix_secs,
        }
    }
}

impl Default for DisplayState {
    fn default() -> (state: Self)
        ensures
            state.plan_id is None,
            state.plan_content_hash is None,
            state.date is None,
            state.image_sha256 is None,
            state.image_index == 0,
            state.caption is None,
            state.refreshed_at_unix_secs is None,
    {
        DisplayState {
            plan_id: None,
            plan_content_hash: None,
            date: None,
            image_sha256: None,
            image_index: 0,
            caption: None,
            refreshed_at_unix_secs: None,
        }
    }
}

impl DisplayState {
    /// The record of a screen that shows `item` and was not refreshed yet.
    pub open spec fn spec_from_item(item: DisplayItem) -> DisplayState {
        DisplayState {
            plan_id: Some(item.plan_id),
            plan_content_hash: item.plan_content_hash,
            date: Some(item.date),
            image_sha256: Some(item.image_sha256),
            image_index: item.image_index,
            caption: Some(item.caption),
            refreshed_at_unix_secs: None,
        }
    }

    pub fn from_item(item: &DisplayItem) -> (state: Self)
        ensures
            state == DisplayState::spec_from_item(*item),
    {
        DisplayState {
            plan_id: Some(item.plan_id),
            plan_content_hash: clone_option_string(&item.plan_content_hash),
            date: Some(item.date),
            image_sha256: Some(item.image_sha256.clone()),
            image_index: item.image_index,
            caption: Some(item.caption.clone()),
            refreshed_at_unix_secs: None,
        }
    }
}

} // verus!
