//! The document that a request for a manual page returns: the query as it
//! was understood, a title taken from the page, and the page itself.

use crate::error::ViewerError;
use crate::text::{
    chars_of, first_visible, is_blank, last_visible_end, skip_spaces, slice_chars, string_of,
    trimmed_end,
};
use vstd::prelude::*;
use vstd::string::StringExecFns;

verus! {

/// A manual page, as handed to the viewer.
#[derive(Clone, Debug, PartialEq, Eq)]
pub struct ManDocument {
    pub query: String,
    pub title: String,
    pub source: String,
    pub raw_text: String,
    pub fetched_at: String,
}

/// The upper-case form of a text, as `str::to_uppercase` gives it.
pub uninterp spec fn uppercased(s: Seq<char>) -> Seq<char>;

/// The index of the first line feed of `s` at or after `i`, or the length
/// of `s` if there is none.
pub open spec fn line_end(s: Seq<char>, i: int) -> int
    decreases s.len() - i,
{
    if 0 <= i < s.len() && s[i] != '\n' {
        line_end(s, i + 1)
    } else {
        i
    }
}

/// The first line of `text` that is not blank, without the white space
/// around it. It begins at the first character of the text that is not
/// white space and ends with the last such character of that line.
pub open spec fn first_line(text: Seq<char>) -> Seq<char> {
    let lo = skip_spaces(text, 0);
    text.subrange(lo, trimmed_end(text, lo, line_end(text, lo)))
}

/// The title of a page on `topic` that reads `text`: its first line that is
/// not blank, or the topic in upper case where every line is blank.
pub open spec fn title_of(text: Seq<char>, topic: Seq<char>) -> Seq<char> {
    if is_blank(text) {
        uppercased(topic)
    } else {
        first_line(text)
    }
}

/// The query as it is shown: the section, a space and the topic, or the
/// topic alone.
pub open spec fn query_of(section: Option<Seq<char>>, topic: Seq<char>) -> Seq<char> {
    match section {
        Some(s) => s + " "@ + topic,
        None => topic,
    }
}

/// The character that stands for the digit `d`.
pub open spec fn digit_char(d: int) -> char {
    if d == 0 {
        '0'
    } else if d == 1 {
        '1'
    } else if d == 2 {
        '2'
    } else if d == 3 {
        '3'
    } else if d == 4 {
        '4'
    } else if d == 5 {
        '5'
    } else if d == 6 {
        '6'
    } else if d == 7 {
        '7'
    } else if d == 8 {
        '8'
    } else {
        '9'
    }
}

/// `n` in decimal digits, without leading zeros.
pub open spec fn decimal(n: nat) -> Seq<char>
    decreases n,
{
    if n < 10 {
        seq![digit_char(n as int)]
    } else {
        decimal(n / 10).push(digit_char((n % 10) as int))
    }
}

/// The time of a request as text: the seconds since the epoch in decimal,
/// or `0` where the clock could not be read.
pub open spec fn timestamp_of(seconds: Option<u64>) -> Seq<char> {
    match seconds {
        Some(s) => decimal(s as nat),
        None => decimal(0),
    }
}

/// `str::to_uppercase`: the upper-case form of `s`, which depends on `s`
/// alone.
#[verifier::external_body]
fn to_upper(s: &str) -> (r: String)
    ensures
        r@ == uppercased(s@),
{
    s.to_uppercase()
}

/// `SystemTime::now` and `SystemTime::duration_since` the epoch, in whole
/// seconds; `None` where the clock stands before the epoch. Nothing is
/// claimed of the value.
#[verifier::external_body]
fn seconds_since_epoch() -> (r: Option<u64>) {
    match std::time::SystemTime::now().duration_since(std::time::UNIX_EPOCH) {
        Ok(elapsed) => Some(elapsed.as_secs()),
        Err(_) => None,
    }
}

/// The first line of `raw_text` that is not blank, without the white space
/// around it; `None` where every line is blank.
pub fn first_line_of(raw_text: &str) -> (r: Option<String>)
    ensures
        match r {
            Some(line) => !is_blank(raw_text@) && line@ == first_line(raw_text@),
            None => is_blank(raw_text@),
        },
{
    let chars = chars_of(raw_text);
    let lo = first_visible(&chars, 0);
    if lo >= chars.len() {
        return None;
    }
    let mut end: usize = lo;
    while end < chars.len() && chars[end] != '\n'
        invariant
            lo <= end <= chars.len(),
            line_end(chars@, lo as int) == line_end(chars@, end as int),
        decreases chars.len() - end,
    {
        end += 1;
    }
    let hi = last_visible_end(&chars, lo, end);
    let line = slice_chars(&chars, lo, hi);
    Some(string_of(&line))
}

/// The title of a page on `topic` that reads `raw_text`.
pub fn extract_title(raw_text: &str, topic: &str) -> (r: String)
    ensures
        r@ == title_of(raw_text@, topic@),
{
    match first_line_of(raw_text) {
        Some(line) => line,
        None => to_upper(topic),
    }
}

/// The query as it is shown.
pub fn query_text(section: &Option<String>, topic: &String) -> (r: String)
    ensures
        r@ == query_of(crate::query::optional_text(*section), topic@),
{
    match section {
        Some(s) => {
            let mut out = s.clone();
            out.append(" ");
            out.append(topic.as_str());
            out
        },
        None => topic.clone(),
    }
}

/// The character that stands for a digit.
pub fn digit(d: u64) -> (r: char)
    requires
        d < 10,
    ensures
        r == digit_char(d as int),
{
    if d == 0 {
        '0'
    } else if d == 1 {
        '1'
    } else if d == 2 {
        '2'
    } else if d == 3 {
        '3'
    } else if d == 4 {
        '4'
    } else if d == 5 {
        '5'
    } else if d == 6 {
        '6'
    } else if d == 7 {
        '7'
    } else if d == 8 {
        '8'
    } else {
        '9'
    }
}

/// The decimal digits of `n`.
pub fn decimal_digits(n: u64) -> (r: Vec<char>)
    ensures
        r@ == decimal(n as nat),
    decreases n,
{
    if n < 10 {
        let mut out: Vec<char> = Vec::new();
        out.push(digit(n));
        assert(out@ =~= seq![digit_char(n as int)]);
        out
    } else {
        let mut out = decimal_digits(n / 10);
        out.push(digit(n % 10));
        out
    }
}

/// The time of a request as text, given what the clock said.
pub fn timestamp_text(seconds: Option<u64>) -> (r: String)
    ensures
        r@ == timestamp_of(seconds),
{
    let digits = match seconds {
        Some(s) => decimal_digits(s),
        None => decimal_digits(0),
    };
    string_of(&digits)
}

/// The time of this call as text: the decimal form of some count of
/// seconds, or `0`.
pub fn current_timestamp() -> (r: String)
    ensures
        exists|seconds: Option<u64>| r@ == timestamp_of(seconds),
{
    let seconds = seconds_since_epoch();
    timestamp_text(seconds)
}

/// Puts a document together from a query and the page that was fetched for
/// it. A page that holds nothing but white space is refused.
pub fn assemble_document(
    section: Option<String>,
    topic: String,
    raw_text: String,
    fetched_at: String,
) -> (r: Result<ManDocument, ViewerError>)
    ensures
        match r {
            Ok(doc) => {
                &&& !is_blank(raw_text@)
                &&& doc.query@ == query_of(crate::query::optional_text(section), topic@)
                &&& doc.title@ == first_line(raw_text@)
                &&& doc.source@ == "system-man"@
                &&& doc.raw_text@ == raw_text@
                &&& doc.fetched_at@ == fetched_at@
            },
            Err(e) => is_blank(raw_text@) && e == ViewerError::EmptyContent,
        },
{
    match first_line_of(raw_text.as_str()) {
        None => Err(ViewerError::EmptyContent),
        Some(title) => {
            let query = query_text(&section, &topic);
            Ok(
                ManDocument {
                    query,
                    title,
                    source: String::from_str("system-man"),
                    raw_text,
                    fetched_at,
                },
            )
        },
    }
}

} // verus!
