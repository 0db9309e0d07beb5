//! Character-level text operations: white space, trimming, splitting into
//! words and joining them again. Text is modelled as `Seq<char>`.

use vstd::prelude::*;
use vstd::std_specs::iter::IteratorSpec;

verus! {

/// Whether `c` is a white-space character: one of the code points that carry
/// Unicode's `White_Space` property.
pub open spec fn is_space(c: char) -> bool {
    let n = c as u32;
    ||| 0x09 <= n <= 0x0D
    ||| n == 0x20
    ||| n == 0x85
    ||| n == 0xA0
    ||| n == 0x1680
    ||| 0x2000 <= n <= 0x200A
    ||| n == 0x2028
    ||| n == 0x2029
    ||| n == 0x202F
    ||| n == 0x205F
    ||| n == 0x3000
}

/// The index of the first character of `s` at or after `i` that is not white
/// space, or the length of `s` if there is none.
pub open spec fn skip_spaces(s: Seq<char>, i: int) -> int
    decreases s.len() - i,
{
    if 0 <= i < s.len() && is_space(s[i]) {
        skip_spaces(s, i + 1)
    } else {
        i
    }
}

/// The end of `s[lo..hi]` once its trailing white space is cut off.
pub open spec fn trimmed_end(s: Seq<char>, lo: int, hi: int) -> int
    decreases hi - lo,
{
    if lo < hi <= s.len() && is_space(s[hi - 1]) {
        trimmed_end(s, lo, hi - 1)
    } else {
        hi
    }
}

/// Whether `s` holds nothing but white space.
pub open spec fn is_blank(s: Seq<char>) -> bool {
    skip_spaces(s, 0) >= s.len()
}

/// `s` without its leading and trailing white space.
pub open spec fn trimmed(s: Seq<char>) -> Seq<char> {
    let lo = skip_spaces(s, 0);
    if lo >= s.len() {
        Seq::empty()
    } else {
        s.subrange(lo, trimmed_end(s, lo, s.len() as int))
    }
}

/// The words of `s` from index `i` on, where `cur` holds the characters of
/// a word that began before `i`. A word is a maximal run of characters that
/// are not white space.
pub open spec fn words_from(s: Seq<char>, i: int, cur: Seq<char>) -> Seq<Seq<char>>
    decreases s.len() - i,
{
    if i < 0 || i >= s.len() {
        if cur.len() > 0 {
            seq![cur]
        } else {
            Seq::empty()
        }
    } else if is_space(s[i]) {
        if cur.len() > 0 {
            seq![cur] + words_from(s, i + 1, Seq::empty())
        } else {
            words_from(s, i + 1, Seq::empty())
        }
    } else {
        words_from(s, i + 1, cur.push(s[i]))
    }
}

/// The white-space separated words of `s`, in order.
pub open spec fn words(s: Seq<char>) -> Seq<Seq<char>> {
    words_from(s, 0, Seq::empty())
}

/// The words `ws` with a single space between each two neighbours.
pub open spec fn join_spaced(ws: Seq<Seq<char>>) -> Seq<char>
    decreases ws.len(),
{
    if ws.len() == 0 {
        Seq::empty()
    } else if ws.len() == 1 {
        ws[0]
    } else {
        join_spaced(ws.drop_last()) + seq![' '] + ws.last()
    }
}

/// The contents of each vector of `v`.
pub open spec fn views(v: Seq<Vec<char>>) -> Seq<Seq<char>> {
    v.map_values(|w: Vec<char>| w@)
}

/// Tells whether `c` is white space.
pub fn is_whitespace(c: char) -> (r: bool)
    ensures
        r == is_space(c),
{
    let n: u32 = c as u32;
    (0x09 <= n && n <= 0x0D) || n == 0x20 || n == 0x85 || n == 0xA0 || n == 0x1680 || (0x2000 <= n
        && n <= 0x200A) || n == 0x2028 || n == 0x2029 || n == 0x202F || n == 0x205F || n == 0x3000
}

/// `String::push`: the character is added at the end of the string.
pub assume_specification[ String::push ](s: &mut String, ch: char)
    ensures
        final(s)@ == old(s)@.push(ch),
;

/// The characters of `s`, in order.
pub fn chars_of(s: &str) -> (r: Vec<char>)
    ensures
        r@ == s@,
{
    broadcast use vstd::string::group_string_axioms;

    let mut it = s.chars();
    let mut out: Vec<char> = Vec::new();
    assert(out@ + it.remaining() =~= s@);
    loop
        invariant
            it.obeys_prophetic_iter_laws(),
            it.decrease() is Some,
            out@ + it.remaining() == s@,
        ensures
            out@ == s@,
        decreases it.decrease()->0,
    {
        let ghost before = it.remaining();
        match it.next() {
            Some(c) => {
                out.push(c);
                assert(out@ + it.remaining() =~= s@);
            },
            None => {
                assert(out@ + before =~= out@);
                break ;
            },
        }
    }
    out
}

/// The string that holds the characters of `v`, in order.
pub fn string_of(v: &Vec<char>) -> (r: String)
    ensures
        r@ == v@,
{
    let mut out = String::new();
    let mut i: usize = 0;
    while i < v.len()
        invariant
            i <= v.len(),
            out@ == v@.take(i as int),
        decreases v.len() - i,
    {
        out.push(v[i]);
        i += 1;
        assert(out@ =~= v@.take(i as int));
    }
    assert(v@.take(i as int) =~= v@);
    out
}

/// The index of the first character at or after `start` that is not white
/// space.
pub fn first_visible(s: &Vec<char>, start: usize) -> (r: usize)
    requires
        start <= s.len(),
    ensures
        r as int == skip_spaces(s@, start as int),
        start <= r <= s.len(),
{
    let mut i: usize = start;
    while i < s.len() && is_whitespace(s[i])
        invariant
            start <= i <= s.len(),
            skip_spaces(s@, start as int) == skip_spaces(s@, i as int),
        decreases s.len() - i,
    {
        i += 1;
    }
    i
}

/// The end of `s[lo..hi]` without its trailing white space.
pub fn last_visible_end(s: &Vec<char>, lo: usize, hi: usize) -> (r: usize)
    requires
        lo <= hi <= s.len(),
    ensures
        r as int == trimmed_end(s@, lo as int, hi as int),
        lo <= r <= hi,
{
    let mut j: usize = hi;
    while lo < j && is_whitespace(s[j - 1])
        invariant
            lo <= j <= hi,
            hi <= s.len(),
            trimmed_end(s@, lo as int, hi as int) == trimmed_end(s@, lo as int, j as int),
        decreases j - lo,
    {
        j -= 1;
    }
    j
}

/// Copies `s[lo..hi]`.
pub fn slice_chars(s: &Vec<char>, lo: usize, hi: usize) -> (r: Vec<char>)
    requires
        lo <= hi <= s.len(),
    ensures
        r@ == s@.subrange(lo as int, hi as int),
{
    let mut out: Vec<char> = Vec::new();
    let mut i: usize = lo;
    while i < hi
        invariant
            lo <= i <= hi,
            hi <= s.len(),
            out@ == s@.subrange(lo as int, i as int),
        decreases hi - i,
    {
        out.push(s[i]);
        i += 1;
        assert(out@ =~= s@.subrange(lo as int, i as int));
    }
    out
}

/// `s` without its leading and trailing white space.
pub fn trim_chars(s: &Vec<char>) -> (r: Vec<char>)
    ensures
        r@ == trimmed(s@),
{
    let lo = first_visible(s, 0);
    if lo >= s.len() {
        Vec::new()
    } else {
        let hi = last_visible_end(s, lo, s.len());
        slice_chars(s, lo, hi)
    }
}

/// Splits `s`, from index `start` on, into its white-space separated words.
pub fn split_words(s: &Vec<char>, start: usize) -> (r: Vec<Vec<char>>)
    requires
        start <= s.len(),
    ensures
        views(r@) == words_from(s@, start as int, Seq::empty()),
{
    let mut out: Vec<Vec<char>> = Vec::new();
    let mut cur: Vec<char> = Vec::new();
    let mut i: usize = start;
    assert(views(out@) =~= Seq::<Seq<char>>::empty());
    while i < s.len()
        invariant
            start <= i <= s.len(),
            words_from(s@, start as int, Seq::empty()) == views(out@) + words_from(
                s@,
                i as int,
                cur@,
            ),
        decreases s.len() - i,
    {
        let c = s[i];
        let ghost before = views(out@);
        if is_whitespace(c) {
            if cur.len() > 0 {
                let ghost word = cur@;
                out.push(cur);
                cur = Vec::new();
                assert(views(out@) =~= before.push(word));
                assert(before.push(word) + words_from(s@, i + 1, Seq::empty()) =~= before + (
                seq![word] + words_from(s@, i + 1, Seq::empty())));
            } else {
                assert(cur@ =~= Seq::<char>::empty());
            }
        } else {
            cur.push(c);
        }
        i += 1;
    }
    if cur.len() > 0 {
        let ghost before = views(out@);
        let ghost word = cur@;
        out.push(cur);
        assert(views(out@) =~= before + seq![word]);
    } else {
        assert(views(out@) + Seq::<Seq<char>>::empty() =~= views(out@));
    }
    out
}

/// Joins the words of `ws` from index `from` on, with one space between
/// each two neighbours.
pub fn join_words(ws: &Vec<Vec<char>>, from: usize) -> (r: Vec<char>)
    requires
        from <= ws.len(),
    ensures
        r@ == join_spaced(views(ws@).skip(from as int)),
{
    let mut out: Vec<char> = Vec::new();
    let mut k: usize = from;
    let ghost all = views(ws@);
    while k < ws.len()
        invariant
            from <= k <= ws.len(),
            all == views(ws@),
            out@ == join_spaced(all.subrange(from as int, k as int)),
        decreases ws.len() - k,
    {
        if k > from {
            out.push(' ');
        }
        let ghost head = out@;
        let word = &ws[k];
        let mut j: usize = 0;
        while j < word.len()
            invariant
                j <= word.len(),
                out@ == head + word@.subrange(0, j as int),
            decreases word.len() - j,
        {
            out.push(word[j]);
            j += 1;
            assert(out@ =~= head + word@.subrange(0, j as int));
        }
        assert(word@.subrange(0, j as int) =~= word@);
        proof {
            let next = all.subrange(from as int, k + 1);
            assert(next.drop_last() =~= all.subrange(from as int, k as int));
            assert(next.last() == word@);
            if k > from {
                assert(out@ =~= join_spaced(next.drop_last()) + seq![' '] + next.last());
            } else {
                assert(out@ =~= word@);
            }
        }
        k += 1;
    }
    assert(all.subrange(from as int, k as int) =~= all.skip(from as int));
    out
}

/// Whether `w` is a word: not empty, and free of white space.
pub open spec fn is_word(w: Seq<char>) -> bool {
    w.len() > 0 && forall|k: int| 0 <= k < w.len() ==> !is_space(#[trigger] w[k])
}

/// Every word that `words_from` gives is a word, as long as the characters
/// carried over in `cur` are free of white space.
pub proof fn lemma_words_from_are_words(s: Seq<char>, i: int, cur: Seq<char>)
    requires
        0 <= i,
        forall|k: int| 0 <= k < cur.len() ==> !is_space(#[trigger] cur[k]),
    ensures
        forall|j: int|
            0 <= j < words_from(s, i, cur).len() ==> is_word(#[trigger] words_from(s, i, cur)[j]),
    decreases s.len() - i,
{
    let all = words_from(s, i, cur);
    assert forall|j: int| 0 <= j < all.len() implies is_word(#[trigger] all[j]) by {
        if i >= s.len() {
            assert(all[j] == cur);
        } else if is_space(s[i]) {
            let rest = words_from(s, i + 1, Seq::empty());
            lemma_words_from_are_words(s, i + 1, Seq::empty());
            if cur.len() > 0 {
                if j > 0 {
                    assert(all[j] == rest[j - 1]);
                } else {
                    assert(all[j] == cur);
                }
            } else {
                assert(all[j] == rest[j]);
            }
        } else {
            let next = cur.push(s[i]);
            assert forall|k: int| 0 <= k < next.len() implies !is_space(#[trigger] next[k]) by {
                if k < cur.len() {
                    assert(next[k] == cur[k]);
                }
            }
            lemma_words_from_are_words(s, i + 1, next);
            assert(all[j] == words_from(s, i + 1, next)[j]);
        }
    }
}

/// Every word of a text is a word: not empty, and free of white space.
pub proof fn lemma_words_are_words(s: Seq<char>)
    ensures
        forall|j: int| 0 <= j < words(s).len() ==> is_word(#[trigger] words(s)[j]),
{
    lemma_words_from_are_words(s, 0, Seq::empty());
}

/// A text has no word exactly when it is blank.
pub proof fn lemma_no_words_iff_blank(s: Seq<char>)
    ensures
        words(s).len() == 0 <==> is_blank(s),
{
    lemma_blank_from(s, 0);
}

/// From `i` on a text has no word exactly when only white space follows.
pub proof fn lemma_blank_from(s: Seq<char>, i: int)
    requires
        0 <= i,
    ensures
        words_from(s, i, Seq::empty()).len() == 0 <==> skip_spaces(s, i) >= s.len(),
    decreases s.len() - i,
{
    if i < s.len() {
        if is_space(s[i]) {
            lemma_blank_from(s, i + 1);
        } else {
            lemma_word_in_progress(s, i + 1, Seq::<char>::empty().push(s[i]));
        }
    }
}

/// A word that has begun is given.
pub proof fn lemma_word_in_progress(s: Seq<char>, i: int, cur: Seq<char>)
    requires
        0 <= i,
        cur.len() > 0,
    ensures
        words_from(s, i, cur).len() > 0,
    decreases s.len() - i,
{
    if i < s.len() && !is_space(s[i]) {
        lemma_word_in_progress(s, i + 1, cur.push(s[i]));
    }
}

} // verus!
