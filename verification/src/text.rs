//! Text operations on credentials and identifiers: comparison and trimming.

use vstd::prelude::*;

verus! {

/// Whether Unicode classifies the character as `White_Space`.
pub uninterp spec fn is_whitespace(c: char) -> bool;

/// Calls `char::is_whitespace`, which reports whether Unicode classifies
/// the character as `White_Space`. Trusted, not proved.
#[verifier::external_body]
fn char_is_whitespace(c: char) -> (r: bool)
    ensures
        r == is_whitespace(c),
{
    c.is_whitespace()
}

/// Whether every character of the text is whitespace. The empty text is blank.
pub open spec fn is_blank(s: Seq<char>) -> bool {
    forall|i: int| 0 <= i < s.len() ==> is_whitespace(#[trigger] s[i])
}

/// The text left after removing every leading whitespace character.
pub open spec fn trimmed_start(s: Seq<char>) -> Seq<char>
    decreases s.len(),
{
    if s.len() > 0 && is_whitespace(s[0]) {
        trimmed_start(s.drop_first())
    } else {
        s
    }
}

/// The text left after removing every trailing whitespace character.
pub open spec fn trimmed_end(s: Seq<char>) -> Seq<char>
    decreases s.len(),
{
    if s.len() > 0 && is_whitespace(s.last()) {
        trimmed_end(s.drop_last())
    } else {
        s
    }
}

/// The text with its leading and trailing whitespace removed.
pub open spec fn trimmed(s: Seq<char>) -> Seq<char> {
    trimmed_end(trimmed_start(s))
}

/// Removing leading whitespace leaves the suffix that starts at the first
/// character that is not whitespace.
pub proof fn lemma_trimmed_start_is_suffix(s: Seq<char>, from: int)
    requires
        0 <= from <= s.len(),
        forall|k: int| 0 <= k < from ==> is_whitespace(#[trigger] s[k]),
        from < s.len() ==> !is_whitespace(s[from]),
    ensures
        trimmed_start(s) == s.subrange(from, s.len() as int),
    decreases from,
{
    if from > 0 {
        lemma_trimmed_start_is_suffix(s.drop_first(), from - 1);
    }
}

/// Removing trailing whitespace leaves the prefix that ends behind the last
/// character that is not whitespace.
pub proof fn lemma_trimmed_end_is_prefix(s: Seq<char>, to: int)
    requires
        0 <= to <= s.len(),
        forall|k: int| to <= k < s.len() ==> is_whitespace(#[trigger] s[k]),
        0 < to ==> !is_whitespace(s[to - 1]),
    ensures
        trimmed_end(s) == s.subrange(0, to),
    decreases s.len() - to,
{
    if to < s.len() {
        lemma_trimmed_end_is_prefix(s.drop_last(), to);
    }
}

/// Text that is all whitespace, the empty text included, trims to nothing.
pub proof fn lemma_blank_trims_to_nothing(s: Seq<char>)
    requires
        is_blank(s),
    ensures
        trimmed(s) == Seq::<char>::empty(),
{
    lemma_trimmed_start_is_suffix(s, s.len() as int);
}

/// What is left of a text without its leading whitespace is empty or starts
/// with a character of the text that is not whitespace.
pub proof fn lemma_trimmed_start_keeps_text(s: Seq<char>)
    ensures
        is_blank(s) ==> trimmed_start(s).len() == 0,
        !is_blank(s) ==> trimmed_start(s).len() > 0 && !is_whitespace(trimmed_start(s)[0]),
    decreases s.len(),
{
    if s.len() > 0 && is_whitespace(s[0]) {
        let rest = s.drop_first();
        lemma_trimmed_start_keeps_text(rest);
        if is_blank(rest) {
            assert forall|i: int| 0 <= i < s.len() implies is_whitespace(#[trigger] s[i]) by {
                if i > 0 {
                    assert(s[i] == rest[i - 1]);
                }
            }
        }
    }
}

/// Removing trailing whitespace never empties a text that starts with a
/// character that is not whitespace.
pub proof fn lemma_trimmed_end_keeps_start(s: Seq<char>)
    requires
        s.len() > 0,
        !is_whitespace(s[0]),
    ensures
        trimmed_end(s).len() > 0,
    decreases s.len(),
{
    if is_whitespace(s.last()) {
        lemma_trimmed_end_keeps_start(s.drop_last());
    }
}

/// Trimming leaves nothing exactly of the texts that are all whitespace.
pub proof fn lemma_trimmed_is_empty_iff_blank(s: Seq<char>)
    ensures
        trimmed(s).len() == 0 <==> is_blank(s),
{
    lemma_trimmed_start_keeps_text(s);
    if is_blank(s) {
        lemma_blank_trims_to_nothing(s);
    } else {
        lemma_trimmed_end_keeps_start(trimmed_start(s));
    }
}

/// Trimming changes nothing in a text that neither starts nor ends with
/// whitespace.
pub proof fn lemma_trimmed_text_is_unchanged(s: Seq<char>)
    requires
        s.len() > 0,
        !is_whitespace(s[0]),
        !is_whitespace(s.last()),
    ensures
        trimmed(s) == s,
{
}

/// Whether two string slices hold the same text.
pub fn same_text(a: &str, b: &str) -> (r: bool)
    ensures
        r == (a@ == b@),
{
    let left = a.to_owned();
    let right = b.to_owned();
    left == right
}

/// Returns the text without its leading and trailing whitespace.
pub fn trim(s: &str) -> (r: String)
    ensures
        r@ == trimmed(s@),
{
    let n = s.unicode_len();
    let mut start: usize = 0;
    let mut end: usize = 0;
    let mut i: usize = 0;
    for c in it: s.chars()
        invariant
            it.seq() == s@,
            n == s@.len(),
            i == it.index(),
            start <= end <= i,
            forall|k: int| 0 <= k < start ==> is_whitespace(#[trigger] s@[k]),
            forall|k: int| end <= k < i ==> is_whitespace(#[trigger] s@[k]),
            start < end ==> !is_whitespace(s@[start as int]) && !is_whitespace(s@[end - 1]),
            start == end ==> start == i,
    {
        if char_is_whitespace(c) {
            if start == end {
                start = i + 1;
                end = i + 1;
            }
        } else {
            end = i + 1;
        }
        i = i + 1;
    }
    proof {
        let text = s@;
        lemma_trimmed_start_is_suffix(text, start as int);
        let tail = text.subrange(start as int, text.len() as int);
        lemma_trimmed_end_is_prefix(tail, end - start);
    }
    s.substring_char(start, end).to_owned()
}

} // verus!
