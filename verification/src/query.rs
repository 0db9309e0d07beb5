//! What the user typed, read as an optional manual section and a topic.

use crate::error::ViewerError;
use crate::text::{
    chars_of, first_visible, is_blank, join_spaced, join_words, lemma_no_words_iff_blank,
    skip_spaces, split_words, string_of, views, words, words_from,
};
use vstd::prelude::*;

verus! {

/// Whether `c` may stand in a section: an ASCII letter, an ASCII digit or a
/// dot.
pub open spec fn is_section_char(c: char) -> bool {
    let n = c as u32;
    ||| 0x30 <= n <= 0x39
    ||| 0x41 <= n <= 0x5A
    ||| 0x61 <= n <= 0x7A
    ||| n == 0x2E
}

/// Whether `token` can name a section: it is not empty, and each of its
/// characters may stand in a section.
pub open spec fn is_section(token: Seq<char>) -> bool {
    token.len() > 0 && forall|i: int| 0 <= i < token.len() ==> is_section_char(#[trigger] token[i])
}

/// Whether the input begins, after its leading white space, with the word
/// `man` and a space.
pub open spec fn has_man_prefix(input: Seq<char>) -> bool {
    let i = skip_spaces(input, 0);
    &&& i + 4 <= input.len()
    &&& input[i] == 'm'
    &&& input[i + 1] == 'a'
    &&& input[i + 2] == 'n'
    &&& input[i + 3] == ' '
}

/// The words of the input that make up the query: all of them, or those
/// behind the prefix `man` where the input has it.
pub open spec fn query_words(input: Seq<char>) -> Seq<Seq<char>> {
    if has_man_prefix(input) {
        words_from(input, skip_spaces(input, 0) + 4, Seq::empty())
    } else {
        words(input)
    }
}

/// Whether the first of the words `ws` is taken as a section: it can name
/// one, and another word follows it.
pub open spec fn leads_with_section(ws: Seq<Seq<char>>) -> bool {
    ws.len() >= 2 && is_section(ws[0])
}

/// The section that the words `ws` name, if any.
pub open spec fn section_of(ws: Seq<Seq<char>>) -> Option<Seq<char>> {
    if leads_with_section(ws) {
        Some(ws[0])
    } else {
        None
    }
}

/// The topic that the words `ws` name: the words behind the section, or all
/// of them where there is no section, with single spaces between them.
pub open spec fn topic_of(ws: Seq<Seq<char>>) -> Seq<char> {
    if leads_with_section(ws) {
        join_spaced(ws.skip(1))
    } else {
        join_spaced(ws)
    }
}

/// The contents of an optional string.
pub open spec fn optional_text(s: Option<String>) -> Option<Seq<char>> {
    match s {
        Some(t) => Some(t@),
        None => None,
    }
}

/// Tells whether `c` may stand in a section.
pub fn section_char(c: char) -> (r: bool)
    ensures
        r == is_section_char(c),
{
    let n: u32 = c as u32;
    (0x30 <= n && n <= 0x39) || (0x41 <= n && n <= 0x5A) || (0x61 <= n && n <= 0x7A) || n == 0x2E
}

/// Tells whether the characters of `token` can name a section.
pub fn section_chars(token: &Vec<char>) -> (r: bool)
    ensures
        r == is_section(token@),
{
    if token.len() == 0 {
        return false;
    }
    let mut i: usize = 0;
    while i < token.len()
        invariant
            i <= token.len(),
            forall|j: int| 0 <= j < i ==> is_section_char(#[trigger] token@[j]),
        decreases token.len() - i,
    {
        if !section_char(token[i]) {
            return false;
        }
        i += 1;
    }
    true
}

/// Tells whether `token` can name a section.
pub fn is_section_token(token: &str) -> (r: bool)
    ensures
        r == is_section(token@),
{
    let chars = chars_of(token);
    section_chars(&chars)
}

/// Reads the input as a query. An input without a word, once the prefix
/// `man` is taken off, is refused. Else the first word is the section where
/// it can name one and another word follows; the other words, joined by
/// single spaces, are the topic.
pub fn parse_man_input(input: &str) -> (r: Result<(Option<String>, String), ViewerError>)
    ensures
        match r {
            Ok((section, topic)) => {
                &&& query_words(input@).len() > 0
                &&& optional_text(section) == section_of(query_words(input@))
                &&& topic@ == topic_of(query_words(input@))
            },
            Err(e) => query_words(input@).len() == 0 && e == ViewerError::EmptyInput,
        },
{
    let chars = chars_of(input);
    let lead = first_visible(&chars, 0);
    let mut start: usize = 0;
    if chars.len() - lead >= 4 && chars[lead] == 'm' && chars[lead + 1] == 'a' && chars[lead + 2]
        == 'n' && chars[lead + 3] == ' ' {
        start = lead + 4;
    }
    let parts = split_words(&chars, start);
    assert(views(parts@) == query_words(input@));
    if parts.len() == 0 {
        return Err(ViewerError::EmptyInput);
    }
    if parts.len() >= 2 && section_chars(&parts[0]) {
        let section = string_of(&parts[0]);
        let topic = join_words(&parts, 1);
        Ok((Some(section), string_of(&topic)))
    } else {
        let topic = join_words(&parts, 0);
        assert(views(parts@).skip(0) =~= views(parts@));
        Ok((None, string_of(&topic)))
    }
}

/// An input of two or more words whose first word can name a section, and
/// which does not begin with the prefix `man`, is read as that section and,
/// as the topic, the other words joined by single spaces.
pub proof fn lemma_section_and_topic(input: Seq<char>)
    requires
        !has_man_prefix(input),
        words(input).len() >= 2,
        is_section(words(input)[0]),
    ensures
        query_words(input).len() > 0,
        section_of(query_words(input)) == Some(words(input)[0]),
        topic_of(query_words(input)) == join_spaced(words(input).skip(1)),
{
}

/// An input of a single word, or one whose first word cannot name a
/// section, and which does not begin with the prefix `man`, is read as a
/// topic alone: all its words joined by single spaces.
pub proof fn lemma_topic_alone(input: Seq<char>)
    requires
        !has_man_prefix(input),
        words(input).len() == 1 || (words(input).len() >= 1 && !is_section(words(input)[0])),
    ensures
        query_words(input).len() > 0,
        section_of(query_words(input)) == None::<Seq<char>>,
        topic_of(query_words(input)) == join_spaced(words(input)),
{
}

/// An input is refused exactly when it is blank, or holds the prefix `man`
/// and no word behind it.
pub proof fn lemma_nothing_to_look_up(input: Seq<char>)
    ensures
        query_words(input).len() == 0 <==> (is_blank(input) || (has_man_prefix(input) && words(
            input,
        ).len() == 1)),
{
    lemma_no_words_iff_blank(input);
    if has_man_prefix(input) {
        lemma_words_behind_prefix(input);
    }
}

/// The words of an input with the prefix `man` are the word `man` and then
/// the words of the query.
pub proof fn lemma_words_behind_prefix(input: Seq<char>)
    requires
        has_man_prefix(input),
    ensures
        words(input) == seq![seq!['m', 'a', 'n']] + query_words(input),
{
    let lead = skip_spaces(input, 0);
    lemma_words_skip_spaces(input, 0);
    let e = Seq::<char>::empty();
    assert(e.push('m').push('a').push('n') =~= seq!['m', 'a', 'n']);
    assert(words_from(input, lead, e) == words_from(input, lead + 1, e.push('m')));
    assert(words_from(input, lead + 1, e.push('m')) == words_from(
        input,
        lead + 2,
        e.push('m').push('a'),
    ));
    assert(words_from(input, lead + 2, e.push('m').push('a')) == words_from(
        input,
        lead + 3,
        e.push('m').push('a').push('n'),
    ));
}

/// White space before a word adds no word.
pub proof fn lemma_words_skip_spaces(s: Seq<char>, i: int)
    requires
        0 <= i,
    ensures
        words_from(s, i, Seq::empty()) == words_from(s, skip_spaces(s, i), Seq::empty()),
        i <= skip_spaces(s, i),
    decreases s.len() - i,
{
    if i < s.len() && crate::text::is_space(s[i]) {
        lemma_words_skip_spaces(s, i + 1);
    }
}

} // verus!
