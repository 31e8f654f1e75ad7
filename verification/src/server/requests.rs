use crate::model::{all_digits, digit_value, digits_value, distinct_values, is_digit, string_views};
use crate::server::models::SpritePayload;
use crate::text::{spec_trim, trim};
use vstd::prelude::*;

verus! {

/// The digits of an unsigned decimal: the text after an optional `+`.
pub open spec fn unsigned_digits(s: Seq<char>) -> Seq<char> {
    if s.len() > 0 && s[0] == '+' {
        s.drop_first()
    } else {
        s
    }
}

/// An unsigned decimal no larger than `max`: an optional `+`, then at least one digit.
pub open spec fn spec_parse_decimal(s: Seq<char>, max: u64) -> Option<u64> {
    let digits = unsigned_digits(s);
    if digits.len() > 0 && all_digits(digits, 0, digits.len() as int) && digits_value(
        digits,
        0,
        digits.len(),
    ) <= max {
        Some(digits_value(digits, 0, digits.len()) as u64)
    } else {
        None
    }
}

proof fn lemma_digits_value_grows(s: Seq<char>, k: nat, n: nat)
    requires
        k <= n <= s.len(),
        all_digits(s, 0, n as int),
    ensures
        digits_value(s, 0, k) <= digits_value(s, 0, n),
        digits_value(s, 0, k) >= 0,
    decreases n,
{
    if n > 0 {
        if k < n {
            lemma_digits_value_grows(s, k, (n - 1) as nat);
        }
        lemma_digits_value_grows(s, 0, (n - 1) as nat);
        assert(is_digit(s[n - 1]));
    }
}

/// Reads an unsigned decimal no larger than `max`.
pub fn parse_decimal(text: &str, max: u64) -> (value: Option<u64>)
    requires
        max <= u32::MAX,
    ensures
        value == spec_parse_decimal(text@, max),
{
    let length = text.unicode_len();
    let start: usize = if length > 0 && text.get_char(0) == '+' {
        1
    } else {
        0
    };
    let ghost digits = unsigned_digits(text@);
    assert(digits =~= text@.skip(start as int));
    if start >= length {
        return None;
    }
    let mut value: u64 = 0;
    let mut i: usize = start;
    while i < length
        invariant
            length == text@.len(),
            start <= i <= length,
            start < length,
            digits == text@.skip(start as int),
            digits == unsigned_digits(text@),
            max <= u32::MAX,
            all_digits(digits, 0, i - start),
            value == digits_value(digits, 0, (i - start) as nat),
            value <= max,
        decreases length - i,
    {
        let c = text.get_char(i);
        assert(digits[i - start] == c);
        if !('0' <= c && c <= '9') {
            assert(!all_digits(digits, 0, digits.len() as int)) by {
                assert(!is_digit(digits[i - start]));
            }
            return None;
        }
        let digit = (c as u32 - '0' as u32) as u64;
        assert(digit == digit_value(c));
        let next = value * 10 + digit;
        assert(next == digits_value(digits, 0, (i - start + 1) as nat));
        if next > max {
            proof {
                if all_digits(digits, 0, digits.len() as int) {
                    lemma_digits_value_grows(digits, (i - start + 1) as nat, digits.len());
                }
            }
            return None;
        }
        value = next;
        i = i + 1;
    }
    Some(value)
}

/// An image name: sixty-four hexadecimal digits.
pub open spec fn is_hex_digit(c: char) -> bool {
    ('0' <= c <= '9') || ('a' <= c <= 'f') || ('A' <= c <= 'F')
}

pub open spec fn spec_valid_sha256(value: Seq<char>) -> bool {
    value.len() == 64 && forall|i: int| 0 <= i < 64 ==> is_hex_digit(#[trigger] value[i])
}

/// Whether `value` names an image.
pub fn validate_sha256(value: &str) -> (valid: bool)
    ensures
        valid == spec_valid_sha256(value@),
{
    let length = value.unicode_len();
    if length != 64 {
        return false;
    }
    let mut i: usize = 0;
    while i < 64
        invariant
            length == value@.len(),
            length == 64,
            i <= 64,
            forall|j: int| 0 <= j < i ==> is_hex_digit(#[trigger] value@[j]),
        decreases 64 - i,
    {
        let c = value.get_char(i);
        if !(('0' <= c && c <= '9') || ('a' <= c && c <= 'f') || ('A' <= c && c <= 'F')) {
            return false;
        }
        i = i + 1;
    }
    true
}

/// Tags with white space trimmed, empty ones dropped and each kept once, in
/// the order they first appear.
pub open spec fn spec_normalized_tags(tags: Seq<Seq<char>>) -> Seq<Seq<char>>
    decreases tags.len(),
{
    if tags.len() == 0 {
        Seq::empty()
    } else {
        let rest = spec_normalized_tags(tags.drop_last());
        let tag = spec_trim(tags.last());
        if tag.len() == 0 || rest.contains(tag) {
            rest
        } else {
            rest.push(tag)
        }
    }
}

fn contains_text(values: &Vec<String>, value: &str) -> (found: bool)
    ensures
        found == string_views(values@).contains(value@),
{
    crate::model::contains_string(values, value)
}

/// Trims the tags, drops the empty ones and keeps each once.
pub fn normalized_tags(tags: &Vec<String>) -> (normalized: Vec<String>)
    ensures
        string_views(normalized@) == spec_normalized_tags(string_views(tags@)),
{
    let mut normalized: Vec<String> = Vec::new();
    let mut i: usize = 0;
    while i < tags.len()
        invariant
            i <= tags@.len(),
            string_views(normalized@) == spec_normalized_tags(string_views(tags@.subrange(0, i as int))),
        decreases tags@.len() - i,
    {
        let ghost before = string_views(normalized@);
        assert(string_views(tags@.subrange(0, i + 1)).drop_last() =~= string_views(tags@.subrange(0, i as int)));
        assert(string_views(tags@.subrange(0, i + 1)).last() == tags@[i as int]@);
        let tag = trim(tags[i].as_str());
        if tag.unicode_len() > 0 && !contains_text(&normalized, tag) {
            normalized.push(String::from_str(tag));
            assert(string_views(normalized@) =~= before.push(tag@));
        }
        i = i + 1;
    }
    assert(tags@.subrange(0, tags@.len() as int) =~= tags@);
    normalized
}

/// The parts of `s` between commas.
pub open spec fn spec_split_commas(s: Seq<char>) -> Seq<Seq<char>>
    decreases s.len(),
{
    if s.len() == 0 {
        seq![Seq::empty()]
    } else {
        let rest = spec_split_commas(s.drop_last());
        if s.last() == ',' {
            rest.push(Seq::empty())
        } else {
            rest.update(rest.len() - 1, rest.last().push(s.last()))
        }
    }
}

proof fn lemma_split_commas_nonempty(s: Seq<char>)
    ensures
        spec_split_commas(s).len() >= 1,
    decreases s.len(),
{
    if s.len() > 0 {
        lemma_split_commas_nonempty(s.drop_last());
    }
}

/// Splits `text` at its commas.
pub fn split_commas(text: &str) -> (parts: Vec<String>)
    ensures
        string_views(parts@) == spec_split_commas(text@),
{
    let length = text.unicode_len();
    let mut parts: Vec<String> = Vec::new();
    let mut start: usize = 0;
    let mut i: usize = 0;
    assert(text@.subrange(0, 0) =~= Seq::<char>::empty());
    while i < length
        invariant
            length == text@.len(),
            start <= i <= length,
            spec_split_commas(text@.subrange(0, i as int)) == string_views(parts@).push(
                text@.subrange(start as int, i as int),
            ),
        decreases length - i,
    {
        let ghost prefix = text@.subrange(0, i + 1);
        assert(prefix.drop_last() =~= text@.subrange(0, i as int));
        let c = text.get_char(i);
        if c == ',' {
            let ghost before = string_views(parts@);
            parts.push(String::from_str(text.substring_char(start, i)));
            assert(string_views(parts@) =~= before.push(text@.subrange(start as int, i as int)));
            start = i + 1;
            assert(text@.subrange(start as int, i + 1) =~= Seq::<char>::empty());
        } else {
            assert(text@.subrange(start as int, i + 1) =~= text@.subrange(start as int, i as int).push(c));
        }
        i = i + 1;
    }
    let ghost before = string_views(parts@);
    parts.push(String::from_str(text.substring_char(start, length)));
    assert(string_views(parts@) =~= before.push(text@.subrange(start as int, length as int)));
    assert(text@.subrange(0, length as int) =~= text@);
    parts
}

/// The tags of a comma-separated query parameter; none without the parameter.
pub fn parse_tags_param(value: Option<&str>) -> (tags: Vec<String>)
    ensures
        match value {
            Some(value) => string_views(tags@) == spec_normalized_tags(spec_split_commas(value@)),
            None => tags@.len() == 0,
        },
{
    match value {
        Some(value) => normalized_tags(&split_commas(value)),
        None => Vec::new(),
    }
}

/// The failure `serde_json` reports for text that is not the JSON asked for.
#[verifier::external_type_specification]
#[verifier::external_body]
pub struct ExJsonError(serde_json::Error);

/// The strings, in order, of `text` read as a JSON array of strings; `None`
/// when the text is no such array.
pub uninterp spec fn json_string_list(text: Seq<char>) -> Option<Seq<Seq<char>>>;

/// `serde_json::from_str::<Vec<String>>`: the text read as a JSON array of
/// strings, or the parser's error; the strings are those `json_string_list`
/// names.
#[verifier::external_body]
pub(crate) fn parse_json_strings(text: &str) -> (parsed: Result<Vec<String>, serde_json::Error>)
    ensures
        parsed is Ok <==> json_string_list(text@) is Some,
        parsed matches Ok(list) ==> json_string_list(text@) == Some(string_views(list@)),
{
    serde_json::from_str::<Vec<String>>(text)
}

/// Why the tags of an upload were refused.
#[derive(Clone, Copy, Debug, PartialEq, Eq, Structural)]
pub enum TagsRequestError {
    MalformedTags,
}

impl TagsRequestError {
    pub open spec fn spec_message(self) -> Seq<char> {
        "标签字段格式不正确"@
    }

    /// The message the administrator sees.
    pub fn message(self) -> (message: &'static str)
        ensures
            message@ == self.spec_message(),
    {
        "标签字段格式不正确"
    }
}

/// The tags of an upload's JSON field: the array of strings it holds, trimmed,
/// without empty ones and each kept once; text that is no such array is refused.
pub fn parse_tags_json(value: &str) -> (tags: Result<Vec<String>, TagsRequestError>)
    ensures
        match json_string_list(value@) {
            Some(list) => tags matches Ok(tags) && string_views(tags@) == spec_normalized_tags(list),
            None => tags == Err::<Vec<String>, TagsRequestError>(TagsRequestError::MalformedTags),
        },
{
    match parse_json_strings(value) {
        Ok(list) => Ok(normalized_tags(&list)),
        Err(_) => Err(TagsRequestError::MalformedTags),
    }
}

/// How many days of plans a listing shows: the parameter when it is a number,
/// three otherwise, kept between one and seven.
pub open spec fn spec_parse_days(value: Option<Seq<char>>) -> u32 {
    let days: int = match value {
        Some(text) => match spec_parse_decimal(text, u32::MAX as u64) {
            Some(days) => days as int,
            None => 3,
        },
        None => 3,
    };
    if days < 1 {
        1
    } else if days > 7 {
        7
    } else {
        days as u32
    }
}

pub fn parse_days(value: Option<&str>) -> (days: u32)
    ensures
        days == spec_parse_days(
            match value {
                Some(text) => Some(text@),
                None => None,
            },
        ),
{
    let days: u64 = match value {
        Some(text) => match parse_decimal(text, u32::MAX as u64) {
            Some(days) => days,
            None => 3,
        },
        None => 3,
    };
    if days < 1 {
        1
    } else if days > 7 {
        7
    } else {
        days as u32
    }
}

/// Which sprite a request renders.
#[derive(Clone, Copy, Debug, PartialEq, Eq, Structural)]
pub enum SpriteKind {
    Caption,
    Date,
    Status,
}

/// Why a sprite request was refused.
#[derive(Clone, Copy, Debug, PartialEq, Eq, Structural)]
pub enum SpriteRequestError {
    InvalidKind,
    EmptyText,
    TextTooLong,
}

impl SpriteRequestError {
    pub open spec fn spec_message(self) -> Seq<char> {
        match self {
            SpriteRequestError::InvalidKind => "精灵图类型不正确"@,
            SpriteRequestError::EmptyText => "精灵图文字不能为空"@,
            SpriteRequestError::TextTooLong => "精灵图文字不能超过 64 个字符"@,
        }
    }

    /// The message the administrator sees.
    pub fn message(self) -> (message: &'static str)
        ensures
            message@ == self.spec_message(),
    {
        match self {
            SpriteRequestError::InvalidKind => "精灵图类型不正确",
            SpriteRequestError::EmptyText => "精灵图文字不能为空",
            SpriteRequestError::TextTooLong => "精灵图文字不能超过 64 个字符",
        }
    }
}

/// A sprite request names a kind of sprite and a trimmed text of one to
/// sixty-four characters.
pub open spec fn spec_sprite_kind(kind: Seq<char>) -> Option<SpriteKind> {
    if kind == "caption"@ {
        Some(SpriteKind::Caption)
    } else if kind == "date"@ {
        Some(SpriteKind::Date)
    } else if kind == "status"@ {
        Some(SpriteKind::Status)
    } else {
        None
    }
}

pub open spec fn spec_validate_sprite_payload(kind: Seq<char>, text: Seq<char>) -> Result<SpriteKind, SpriteRequestError> {
    match spec_sprite_kind(kind) {
        None => Err(SpriteRequestError::InvalidKind),
        Some(sprite) => if spec_trim(text).len() == 0 {
            Err(SpriteRequestError::EmptyText)
        } else if spec_trim(text).len() > 64 {
            Err(SpriteRequestError::TextTooLong)
        } else {
            Ok(sprite)
        },
    }
}

fn sprite_kind(kind: &str) -> (sprite: Option<SpriteKind>)
    ensures
        sprite == spec_sprite_kind(kind@),
{
    let caption = String::from_str("caption");
    let date = String::from_str("date");
    let status = String::from_str("status");
    let given = String::from_str(kind);
    if given == caption {
        Some(SpriteKind::Caption)
    } else if given == date {
        Some(SpriteKind::Date)
    } else if given == status {
        Some(SpriteKind::Status)
    } else {
        None
    }
}

pub fn validate_sprite_payload(payload: &SpritePayload) -> (result: Result<SpriteKind, SpriteRequestError>)
    ensures
        result == spec_validate_sprite_payload(payload.kind@, payload.text@),
{
    let kind = match sprite_kind(payload.kind.as_str()) {
        Some(kind) => kind,
        None => {
            return Err(SpriteRequestError::InvalidKind);
        },
    };
    let text = trim(payload.text.as_str());
    let count = text.unicode_len();
    if count == 0 {
        return Err(SpriteRequestError::EmptyText);
    }
    if count > 64 {
        return Err(SpriteRequestError::TextTooLong);
    }
    Ok(kind)
}

} // verus!
