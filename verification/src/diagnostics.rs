use crate::model::{spec_parse_date, LocalDate};
use vstd::prelude::*;

verus! {

/// Where the device writes its daily diagnostic logs.
pub const LOGS_DIR: &'static str = "/sdcard/data/logs";

/// How serious a diagnostic event is.
#[derive(Clone, Copy, Debug, PartialEq, Eq, Structural)]
pub enum DiagnosticLevel {
    Info,
    Warn,
    Error,
}

impl DiagnosticLevel {
    pub open spec fn spec_text(self) -> Seq<char> {
        match self {
            DiagnosticLevel::Info => "info"@,
            DiagnosticLevel::Warn => "warn"@,
            DiagnosticLevel::Error => "error"@,
        }
    }

    /// The name a log line gives the level.
    pub fn text(self) -> (text: &'static str)
        ensures
            text@ == self.spec_text(),
    {
        match self {
            DiagnosticLevel::Info => "info",
            DiagnosticLevel::Warn => "warn",
            DiagnosticLevel::Error => "error",
        }
    }
}

/// How writing a diagnostic line ended.
#[derive(Clone, Copy, Debug, PartialEq, Eq, Structural)]
pub enum DiagnosticLogWrite {
    Written,
    SerializeError,
    WriteError,
}

/// The character of a decimal digit.
pub open spec fn digit_char(digit: int) -> char {
    if digit == 0 {
        '0'
    } else if digit == 1 {
        '1'
    } else if digit == 2 {
        '2'
    } else if digit == 3 {
        '3'
    } else if digit == 4 {
        '4'
    } else if digit == 5 {
        '5'
    } else if digit == 6 {
        '6'
    } else if digit == 7 {
        '7'
    } else if digit == 8 {
        '8'
    } else {
        '9'
    }
}

/// The decimal digits of `value`, padded with zeros to at least `width` digits.
pub open spec fn padded_digits(value: nat, width: nat) -> Seq<char>
    decreases value + width,
{
    if value < 10 && width <= 1 {
        seq![digit_char(value as int)]
    } else {
        padded_digits(value / 10, if width > 0 { (width - 1) as nat } else { 0 }) + seq![
            digit_char((value % 10) as int),
        ]
    }
}

fn digit_text(digit: u64) -> (text: &'static str)
    requires
        digit < 10,
    ensures
        text@ == seq![digit_char(digit as int)],
{
    proof {
        reveal_strlit("0");
        reveal_strlit("1");
        reveal_strlit("2");
        reveal_strlit("3");
        reveal_strlit("4");
        reveal_strlit("5");
        reveal_strlit("6");
        reveal_strlit("7");
        reveal_strlit("8");
        reveal_strlit("9");
    }
    match digit {
        0 => "0",
        1 => "1",
        2 => "2",
        3 => "3",
        4 => "4",
        5 => "5",
        6 => "6",
        7 => "7",
        8 => "8",
        _ => "9",
    }
}

/// `value` in decimal, padded with zeros to at least `width` digits.
pub fn padded_decimal(value: u64, width: u64) -> (text: String)
    ensures
        text@ == padded_digits(value as nat, width as nat),
    decreases value + width,
{
    if value < 10 && width <= 1 {
        String::from_str(digit_text(value))
    } else {
        let head = padded_decimal(value / 10, if width > 0 { width - 1 } else { 0 });
        head.concat(digit_text(value % 10))
    }
}

/// A date written `YYYY-MM-DD`.
pub open spec fn spec_date_text(date: LocalDate) -> Seq<char> {
    padded_digits(date.year as nat, 4) + "-"@ + padded_digits(date.month as nat, 2) + "-"@ + padded_digits(
        date.day as nat,
        2,
    )
}

pub fn date_text(date: LocalDate) -> (text: String)
    ensures
        text@ == spec_date_text(date),
{
    padded_decimal(date.year as u64, 4).concat("-").concat(padded_decimal(date.month as u64, 2).as_str()).concat(
        "-",
    ).concat(padded_decimal(date.day as u64, 2).as_str())
}

/// The log file of a day.
pub open spec fn spec_daily_log_path(date: LocalDate) -> Seq<char> {
    LOGS_DIR@ + "/"@ + spec_date_text(date) + ".jsonl"@
}

pub fn daily_log_path(date: LocalDate) -> (path: String)
    ensures
        path@ == spec_daily_log_path(date),
{
    String::from_str(LOGS_DIR).concat("/").concat(date_text(date).as_str()).concat(".jsonl")
}

/// How many days after `start` the date `end` comes, looking at most ten years
/// ahead; `None` when `end` is earlier or too far.
pub open spec fn spec_days_between(date: LocalDate, end: LocalDate, days: nat) -> Option<u32>
    decreases 3661 - days,
{
    if days > 3660 {
        None
    } else if date == end {
        Some(days as u32)
    } else if date.ordinal() > end.ordinal() {
        None
    } else {
        spec_days_between(date.spec_next_day(), end, days + 1)
    }
}

pub fn days_between(start: LocalDate, end: LocalDate) -> (days: Option<u32>)
    ensures
        days == spec_days_between(start, end, 0),
{
    let mut date = start;
    let mut days: u32 = 0;
    while days <= 3660
        invariant
            days <= 3661,
            spec_days_between(start, end, 0) == spec_days_between(date, end, days as nat),
        decreases 3661 - days,
    {
        if date == end {
            return Some(days);
        }
        if end.is_before(&date) {
            return None;
        }
        date = date.next_day();
        days = days + 1;
    }
    None
}

/// A file of the logs directory is an expired log: it is named after a date
/// with `.jsonl` and that date is at least `keep_days` before `today`.
pub open spec fn spec_log_expired(file_name: Seq<char>, today: LocalDate, keep_days: u8) -> bool {
    &&& file_name.len() >= 6
    &&& file_name.subrange(file_name.len() - 6, file_name.len() as int) == ".jsonl"@
    &&& spec_parse_date(file_name.subrange(0, file_name.len() - 6)) matches Some((year, month, day))
    &&& spec_days_between(
        LocalDate { year: year as u16, month: month as u8, day: day as u8 },
        today,
        0,
    ) matches Some(days)
    &&& days >= keep_days
}

/// Whether a log file falls outside the retention window and is to be removed.
pub fn log_file_expired(file_name: &str, today: LocalDate, keep_days: u8) -> (expired: bool)
    ensures
        expired == spec_log_expired(file_name@, today, keep_days),
{
    proof {
        reveal_strlit(".jsonl");
    }
    let length = file_name.unicode_len();
    if length < 6 {
        return false;
    }
    let suffix = file_name.substring_char(length - 6, length);
    let expected = ".jsonl";
    let mut i: usize = 0;
    while i < 6
        invariant
            suffix@.len() == 6,
            length == file_name@.len(),
            length >= 6,
            suffix@ == file_name@.subrange(length - 6, length as int),
            expected@ == ".jsonl"@,
            expected@.len() == 6,
            i <= 6,
            forall|j: int| 0 <= j < i ==> suffix@[j] == expected@[j],
        decreases 6 - i,
    {
        if suffix.get_char(i) != expected.get_char(i) {
            assert(suffix@ != ".jsonl"@) by {
                assert(suffix@[i as int] != ".jsonl"@[i as int]);
            }
            assert(file_name@.subrange(length - 6, length as int) == suffix@);
            return false;
        }
        i = i + 1;
    }
    assert(suffix@ =~= ".jsonl"@);
    let stem = file_name.substring_char(0, length - 6);
    let date = match LocalDate::parse(stem) {
        Ok(date) => date,
        Err(_) => {
            return false;
        },
    };
    match days_between(date, today) {
        Some(days) => days >= keep_days as u32,
        None => false,
    }
}

} // verus!
