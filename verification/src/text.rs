use crate::render::text::{is_whitespace, spec_is_whitespace};
use vstd::prelude::*;

verus! {

pub open spec fn ascii_upper_char(c: char) -> char {
    if 'a' <= c <= 'z' {
        ((c as int) - 32) as char
    } else {
        c
    }
}

pub open spec fn ascii_upper(s: Seq<char>) -> Seq<char> {
    s.map_values(|c: char| ascii_upper_char(c))
}

/// `str::to_ascii_uppercase`: maps `a` to `z` onto `A` to `Z` and keeps every other character.
#[verifier::external_body]
pub(crate) fn to_ascii_uppercase(text: &str) -> (result: String)
    ensures
        result@ == ascii_upper(text@),
{
    text.to_ascii_uppercase()
}


/// `s` without the white space at its front.
pub open spec fn trim_front(s: Seq<char>) -> Seq<char>
    decreases s.len(),
{
    if s.len() > 0 && spec_is_whitespace(s[0]) {
        trim_front(s.drop_first())
    } else {
        s
    }
}

/// `s` without the white space at its end.
pub open spec fn trim_back(s: Seq<char>) -> Seq<char>
    decreases s.len(),
{
    if s.len() > 0 && spec_is_whitespace(s.last()) {
        trim_back(s.drop_last())
    } else {
        s
    }
}

/// `s` without white space at either end.
pub open spec fn spec_trim(s: Seq<char>) -> Seq<char> {
    trim_back(trim_front(s))
}

/// The text between the leading and the trailing white space.
pub fn trim(text: &str) -> (trimmed: &str)
    ensures
        trimmed@ == spec_trim(text@),
{
    let length = text.unicode_len();
    let mut start: usize = 0;
    assert(text@.skip(0) =~= text@);
    while start < length && is_whitespace(text.get_char(start))
        invariant
            length == text@.len(),
            start <= length,
            trim_front(text@) == trim_front(text@.skip(start as int)),
        decreases length - start,
    {
        assert(text@.skip(start as int).drop_first() =~= text@.skip(start + 1));
        start = start + 1;
    }
    assert(trim_front(text@) == text@.skip(start as int)) by {
        if start < length {
            assert(text@.skip(start as int)[0] == text@[start as int]);
        } else {
            assert(text@.skip(start as int).len() == 0);
        }
    }
    let mut end: usize = length;
    while end > start && is_whitespace(text.get_char(end - 1))
        invariant
            length == text@.len(),
            start <= end <= length,
            trim_back(text@.skip(start as int)) == trim_back(text@.subrange(start as int, end as int)),
        decreases end - start,
    {
        assert(text@.subrange(start as int, end as int).drop_last() =~= text@.subrange(start as int, end - 1));
        end = end - 1;
    }
    assert(text@.skip(start as int) =~= text@.subrange(start as int, length as int));
    assert(trim_back(text@.subrange(start as int, end as int)) == text@.subrange(start as int, end as int)) by {
        if end > start {
            assert(text@.subrange(start as int, end as int).last() == text@[end - 1]);
        }
    }
    text.substring_char(start, end)
}

pub open spec fn ascii_lower_char(c: char) -> char {
    if 'A' <= c <= 'Z' {
        ((c as int) + 32) as char
    } else {
        c
    }
}

/// `s` with `A` to `Z` written in lower case.
pub open spec fn ascii_lower(s: Seq<char>) -> Seq<char> {
    s.map_values(|c: char| ascii_lower_char(c))
}

/// Whether `text` in ASCII lower case is `word`.
pub fn lowercase_equals(text: &str, word: &str) -> (equal: bool)
    ensures
        equal == (ascii_lower(text@) == word@),
{
    let length = text.unicode_len();
    if length != word.unicode_len() {
        assert(ascii_lower(text@).len() != word@.len());
        return false;
    }
    let mut i: usize = 0;
    while i < length
        invariant
            length == text@.len(),
            length == word@.len(),
            i <= length,
            forall|j: int| 0 <= j < i ==> ascii_lower_char(#[trigger] text@[j]) == word@[j],
        decreases length - i,
    {
        let c = text.get_char(i);
        let lowered = if 'A' <= c && c <= 'Z' {
            ((c as u8) + 32) as char
        } else {
            c
        };
        assert(lowered == ascii_lower_char(c));
        if lowered != word.get_char(i) {
            assert(ascii_lower(text@)[i as int] != word@[i as int]);
            return false;
        }
        i = i + 1;
    }
    assert(ascii_lower(text@) =~= word@);
    true
}

} // verus!
