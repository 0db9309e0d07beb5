//! What is handed to the manual and what is made of its answer. Running it
//! is left to the caller.

use crate::error::ViewerError;
use crate::text::{chars_of, is_blank, string_of, trim_chars, trimmed};
use vstd::prelude::*;
use vstd::string::StringExecFns;

verus! {

/// How a run of the manual ended.
#[derive(Clone, Debug, PartialEq, Eq)]
pub enum ManOutcome {
    /// It could not be started. Holds the system's reason.
    NotStarted(String),
    /// It ended in failure. Holds what it wrote to its error stream.
    Failed(String),
    /// It ended well. Holds what it wrote, and what the formatter made of
    /// that where the formatter ran and ended well too.
    Succeeded { output: String, formatted: Option<String> },
}

/// `s` without any occurrence of the character `c`.
pub open spec fn without(s: Seq<char>, c: char) -> Seq<char>
    decreases s.len(),
{
    if s.len() == 0 {
        Seq::empty()
    } else if s.last() == c {
        without(s.drop_last(), c)
    } else {
        without(s.drop_last(), c).push(s.last())
    }
}

/// The arguments of the manual for a query: the section, if any, then the
/// topic.
pub open spec fn arguments_of(section: Option<String>, topic: String) -> Seq<String> {
    match section {
        Some(s) => seq![s, topic],
        None => seq![topic],
    }
}

/// What is reported when the manual failed: what it wrote to its error
/// stream, trimmed, or that there is no entry for the topic where it wrote
/// nothing.
pub open spec fn failure_text(stderr: Seq<char>, topic: Seq<char>) -> Seq<char> {
    if is_blank(stderr) {
        "No manual entry found for `"@ + topic + "`."@
    } else {
        trimmed(stderr)
    }
}

/// The arguments with which the manual is run.
pub fn man_arguments(section: Option<String>, topic: String) -> (r: Vec<String>)
    ensures
        r@ == arguments_of(section, topic),
{
    let mut out: Vec<String> = Vec::new();
    if let Some(s) = section {
        out.push(s);
    }
    out.push(topic);
    assert(out@ =~= arguments_of(section, topic));
    out
}

/// The environment in which the manual is run, as names and values: no
/// pager, and lines of 120 columns.
pub fn man_environment() -> (r: Vec<(String, String)>)
    ensures
        r@.len() == 3,
        r@[0].0@ == "MANPAGER"@ && r@[0].1@ == "cat"@,
        r@[1].0@ == "PAGER"@ && r@[1].1@ == "cat"@,
        r@[2].0@ == "MANWIDTH"@ && r@[2].1@ == "120"@,
{
    let mut out: Vec<(String, String)> = Vec::new();
    out.push((String::from_str("MANPAGER"), String::from_str("cat")));
    out.push((String::from_str("PAGER"), String::from_str("cat")));
    out.push((String::from_str("MANWIDTH"), String::from_str("120")));
    out
}

/// The error for a run of the manual that failed, given what it wrote to
/// its error stream.
pub fn man_failure(stderr: &str, topic: &str) -> (r: ViewerError)
    ensures
        match r {
            ViewerError::ExternalTool(detail) => detail@ == failure_text(stderr@, topic@),
            _ => false,
        },
{
    let chars = chars_of(stderr);
    let kept = trim_chars(&chars);
    if kept.len() == 0 {
        proof {
            lemma_trimmed_empty(stderr@);
        }
        let mut text = String::from_str("No manual entry found for `");
        text.append(topic);
        text.append("`.");
        ViewerError::ExternalTool(text)
    } else {
        ViewerError::ExternalTool(string_of(&kept))
    }
}

/// `text` without its backspace characters.
pub fn strip_backspaces(text: &str) -> (r: String)
    ensures
        r@ == without(text@, '\u{8}'),
{
    let chars = chars_of(text);
    let mut out: Vec<char> = Vec::new();
    let mut i: usize = 0;
    assert(chars@.take(0) =~= Seq::<char>::empty());
    while i < chars.len()
        invariant
            i <= chars.len(),
            out@ == without(chars@.take(i as int), '\u{8}'),
        decreases chars.len() - i,
    {
        let c = chars[i];
        assert(chars@.take(i + 1).drop_last() =~= chars@.take(i as int));
        assert(chars@.take(i + 1).last() == c);
        if c != '\u{8}' {
            out.push(c);
        }
        i += 1;
    }
    assert(chars@.take(i as int) =~= chars@);
    string_of(&out)
}

/// The page as it is shown: what the formatter made of the manual's output
/// where it ran, the output itself where it did not; in both cases without
/// backspace characters.
pub fn normalized_output(formatted: Option<String>, raw: &str) -> (r: String)
    ensures
        r@ == without(
            match formatted {
                Some(f) => f@,
                None => raw@,
            },
            '\u{8}',
        ),
{
    match formatted {
        Some(f) => strip_backspaces(f.as_str()),
        None => strip_backspaces(raw),
    }
}

/// The page that a run of the manual gives, or the error that is reported
/// for it. A run that could not be started is reported with the system's
/// reason, a run that failed with what it wrote to its error stream. The
/// output of a run that ended well is taken as the formatter left it, or as
/// it is where the formatter did not run; never is the request failed for
/// the formatter's sake.
pub fn page_text(outcome: ManOutcome, topic: &str) -> (r: Result<String, ViewerError>)
    ensures
        match outcome {
            ManOutcome::NotStarted(reason) => match r {
                Err(ViewerError::ExternalTool(detail)) => detail@
                    == "Failed to run man command: "@ + reason@,
                _ => false,
            },
            ManOutcome::Failed(stderr) => match r {
                Err(ViewerError::ExternalTool(detail)) => detail@ == failure_text(
                    stderr@,
                    topic@,
                ),
                _ => false,
            },
            ManOutcome::Succeeded { output, formatted } => match r {
                Ok(page) => page@ == without(
                    match formatted {
                        Some(f) => f@,
                        None => output@,
                    },
                    '\u{8}',
                ),
                Err(_) => false,
            },
        },
{
    match outcome {
        ManOutcome::NotStarted(reason) => {
            let mut text = String::from_str("Failed to run man command: ");
            text.append(reason.as_str());
            Err(ViewerError::ExternalTool(text))
        },
        ManOutcome::Failed(stderr) => Err(man_failure(stderr.as_str(), topic)),
        ManOutcome::Succeeded { output, formatted } => Ok(
            normalized_output(formatted, output.as_str()),
        ),
    }
}

/// A text is blank exactly when nothing is left of it once trimmed.
pub proof fn lemma_trimmed_empty(s: Seq<char>)
    ensures
        is_blank(s) <==> trimmed(s).len() == 0,
{
    let lo = crate::text::skip_spaces(s, 0);
    lemma_skip_spaces_stops(s, 0);
    if lo < s.len() {
        lemma_trimmed_end_keeps(s, lo, s.len() as int);
    }
}

/// Where `skip_spaces` stops within the text, a character stands that is
/// not white space.
pub proof fn lemma_skip_spaces_stops(s: Seq<char>, i: int)
    requires
        0 <= i,
    ensures
        i <= crate::text::skip_spaces(s, i),
        crate::text::skip_spaces(s, i) < s.len() ==> !crate::text::is_space(
            s[crate::text::skip_spaces(s, i)],
        ),
    decreases s.len() - i,
{
    if i < s.len() && crate::text::is_space(s[i]) {
        lemma_skip_spaces_stops(s, i + 1);
    }
}

/// Trailing white space is never cut back beyond a character that is not
/// white space.
pub proof fn lemma_trimmed_end_keeps(s: Seq<char>, lo: int, hi: int)
    requires
        0 <= lo < hi <= s.len(),
        !crate::text::is_space(s[lo]),
    ensures
        lo < crate::text::trimmed_end(s, lo, hi) <= hi,
    decreases hi - lo,
{
    if crate::text::is_space(s[hi - 1]) {
        lemma_trimmed_end_keeps(s, lo, hi - 1);
    }
}

} // verus!
