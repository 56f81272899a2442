//! Text as sequences of characters: conversions between `&str`, `String` and
//! `Vec<char>`, Unicode whitespace, trimming and lowercasing.

use vstd::prelude::*;
use vstd::string::StringExecFns;

verus! {

/// Whether `c` has the Unicode property `White_Space`: the characters that
/// `char::is_whitespace` accepts and that `str::trim` removes.
pub open spec fn is_whitespace(c: char) -> bool {
    ||| '\u{9}' <= c <= '\u{d}'
    ||| c == ' '
    ||| c == '\u{85}'
    ||| c == '\u{a0}'
    ||| c == '\u{1680}'
    ||| '\u{2000}' <= c <= '\u{200a}'
    ||| c == '\u{2028}'
    ||| c == '\u{2029}'
    ||| c == '\u{202f}'
    ||| c == '\u{205f}'
    ||| c == '\u{3000}'
}

/// How many characters at the start of `s` satisfy `skip`.
pub open spec fn leading(s: Seq<char>, skip: spec_fn(char) -> bool) -> nat
    decreases s.len(),
{
    if s.len() > 0 && skip(s.first()) {
        1 + leading(s.drop_first(), skip)
    } else {
        0
    }
}

/// How many characters at the end of `s` satisfy `skip`.
pub open spec fn trailing(s: Seq<char>, skip: spec_fn(char) -> bool) -> nat
    decreases s.len(),
{
    if s.len() > 0 && skip(s.last()) {
        1 + trailing(s.drop_last(), skip)
    } else {
        0
    }
}

/// The test for whitespace, as a value.
pub open spec fn whitespace() -> spec_fn(char) -> bool {
    |c: char| is_whitespace(c)
}

/// `s` without the whitespace at its start.
pub open spec fn trim_start(s: Seq<char>) -> Seq<char> {
    s.skip(leading(s, whitespace()) as int)
}

/// `s` without the whitespace at its end.
pub open spec fn trim_end(s: Seq<char>) -> Seq<char> {
    s.take(s.len() - trailing(s, whitespace()))
}

/// `s` without the whitespace at its start and at its end.
pub open spec fn trimmed(s: Seq<char>) -> Seq<char> {
    trim_end(trim_start(s))
}

/// The run of characters that satisfy `skip` at the start of `s` ends at the
/// first position `k` whose character does not.
pub proof fn lemma_leading(s: Seq<char>, skip: spec_fn(char) -> bool, k: int)
    requires
        0 <= k <= s.len(),
        forall|i: int| 0 <= i < k ==> skip(#[trigger] s[i]),
        k < s.len() ==> !skip(s[k]),
    ensures
        leading(s, skip) == k,
    decreases k,
{
    if k > 0 {
        let rest = s.drop_first();
        lemma_leading(rest, skip, k - 1);
    }
}

/// The run of characters that satisfy `skip` at the end of `s` starts after
/// the last position whose character does not.
pub proof fn lemma_trailing(s: Seq<char>, skip: spec_fn(char) -> bool, k: int)
    requires
        0 <= k <= s.len(),
        forall|i: int| s.len() - k <= i < s.len() ==> skip(#[trigger] s[i]),
        k < s.len() ==> !skip(s[s.len() - k - 1]),
    ensures
        trailing(s, skip) == k,
    decreases k,
{
    if k > 0 {
        let rest = s.drop_last();
        lemma_trailing(rest, skip, k - 1);
    }
}

/// What `leading` counts: a run at the start of `s`, all of whose characters
/// satisfy `skip`, that stops at the end of `s` or before a character that
/// does not.
pub proof fn lemma_leading_run(s: Seq<char>, skip: spec_fn(char) -> bool)
    ensures
        leading(s, skip) <= s.len(),
        forall|i: int| 0 <= i < leading(s, skip) ==> skip(#[trigger] s[i]),
        leading(s, skip) < s.len() ==> !skip(s[leading(s, skip) as int]),
    decreases s.len(),
{
    if s.len() > 0 && skip(s.first()) {
        let rest = s.drop_first();
        lemma_leading_run(rest, skip);
        assert forall|i: int| 0 <= i < leading(s, skip) implies skip(#[trigger] s[i]) by {
            if i > 0 {
                assert(s[i] == rest[i - 1]);
            }
        }
    }
}

/// What `trailing` counts: a run at the end of `s`, all of whose characters
/// satisfy `skip`, that stops at the start of `s` or after a character that
/// does not.
pub proof fn lemma_trailing_run(s: Seq<char>, skip: spec_fn(char) -> bool)
    ensures
        trailing(s, skip) <= s.len(),
        forall|i: int| s.len() - trailing(s, skip) <= i < s.len() ==> skip(#[trigger] s[i]),
        trailing(s, skip) < s.len() ==> !skip(s[s.len() - trailing(s, skip) - 1]),
    decreases s.len(),
{
    if s.len() > 0 && skip(s.last()) {
        let rest = s.drop_last();
        lemma_trailing_run(rest, skip);
        assert forall|i: int| s.len() - trailing(s, skip) <= i < s.len() implies skip(
            #[trigger] s[i],
        ) by {
            if i < s.len() - 1 {
                assert(s[i] == rest[i]);
            }
        }
    }
}

/// Whether `c` has the Unicode property `White_Space`.
pub fn is_whitespace_char(c: char) -> (yes: bool)
    ensures
        yes == is_whitespace(c),
{
    ('\u{9}' <= c && c <= '\u{d}') || c == ' ' || c == '\u{85}' || c == '\u{a0}' || c == '\u{1680}'
        || ('\u{2000}' <= c && c <= '\u{200a}') || c == '\u{2028}' || c == '\u{2029}' || c
        == '\u{202f}' || c == '\u{205f}' || c == '\u{3000}'
}

/// `c` with a capital letter `A` to `Z` turned into its small letter.
pub open spec fn ascii_lower(c: char) -> char {
    if is_ascii_capital(c) {
        ((c as u8) + 32) as char
    } else {
        c
    }
}

/// `c` with a capital letter `A` to `Z` turned into its small letter.
pub fn to_ascii_lower(c: char) -> (lower: char)
    ensures
        lower == ascii_lower(c),
{
    if 'A' <= c && c <= 'Z' {
        ((c as u8) + 32u8) as char
    } else {
        c
    }
}

/// The lowercase form of a text: what `str::to_lowercase` returns for it.
pub uninterp spec fn lowercase_of(text: Seq<char>) -> Seq<char>;

/// Whether `c` is one of the capital letters `A` to `Z`.
pub open spec fn is_ascii_capital(c: char) -> bool {
    'A' <= c <= 'Z'
}

/// The lowercase form of `text`, made by `str::to_lowercase`. The result is
/// a function of the text alone, by the case mappings of Unicode, and it
/// holds no capital letter `A` to `Z`: those map to `a` to `z`.
#[verifier::external_body]
pub(crate) fn lowercase(text: &str) -> (lower: String)
    ensures
        lower@ == lowercase_of(text@),
        forall|i: int| 0 <= i < lower@.len() ==> !is_ascii_capital(#[trigger] lower@[i]),
{
    text.to_lowercase()
}

/// The characters of `s`, in order.
pub fn chars_of(s: &str) -> (chars: Vec<char>)
    ensures
        chars@ == s@,
{
    broadcast use vstd::string::group_string_axioms;

    let mut chars: Vec<char> = Vec::new();
    for c in it: s.chars()
        invariant
            it.seq() == s@,
            chars@ == it.seq().take(it.index() as int),
    {
        chars.push(c);
    }
    chars
}

/// Appends `c` to `text` with `String::push`, which adds the character at
/// the end and leaves what was there before.
#[verifier::external_body]
fn push_char(text: &mut String, c: char)
    ensures
        final(text)@ == old(text)@.push(c),
{
    text.push(c);
}

/// The text made of `chars[from..to]`.
pub fn string_of_range(chars: &Vec<char>, from: usize, to: usize) -> (text: String)
    requires
        from <= to <= chars.len(),
    ensures
        text@ == chars@.subrange(from as int, to as int),
{
    let mut text = String::new();
    let mut i: usize = from;
    while i < to
        invariant
            from <= i <= to <= chars.len(),
            text@ == chars@.subrange(from as int, i as int),
        decreases to - i,
    {
        push_char(&mut text, chars[i]);
        i += 1;
    }
    text
}

/// The text made of `chars`.
pub fn string_of(chars: &Vec<char>) -> (text: String)
    ensures
        text@ == chars@,
{
    let text = string_of_range(chars, 0, chars.len());
    text
}

/// The bounds of `chars[from..to]` without the whitespace at its start and
/// at its end.
pub fn trim_bounds(chars: &Vec<char>, from: usize, to: usize) -> (bounds: (usize, usize))
    requires
        from <= to <= chars.len(),
    ensures
        from <= bounds.0 <= bounds.1 <= to,
        chars@.subrange(bounds.0 as int, bounds.1 as int) == trimmed(
            chars@.subrange(from as int, to as int),
        ),
{
    let mut start: usize = from;
    while start < to && is_whitespace_char(chars[start])
        invariant
            from <= start <= to <= chars.len(),
            forall|i: int| from <= i < start ==> is_whitespace(#[trigger] chars@[i]),
        decreases to - start,
    {
        start += 1;
    }
    let mut end: usize = to;
    while end > start && is_whitespace_char(chars[end - 1])
        invariant
            start <= end <= to <= chars.len(),
            forall|i: int| end <= i < to ==> is_whitespace(#[trigger] chars@[i]),
        decreases end,
    {
        end -= 1;
    }
    proof {
        let s = chars@.subrange(from as int, to as int);
        lemma_leading(s, whitespace(), start - from);
        let rest = trim_start(s);
        lemma_trailing(rest, whitespace(), to - end);
    }
    (start, end)
}

/// `first` followed by `second`.
pub fn join2(first: &str, second: &str) -> (text: String)
    ensures
        text@ == first@ + second@,
{
    let mut text = first.to_owned();
    text.append(second);
    text
}

/// `first`, `second` and `third`, one after the other.
pub fn join3(first: &str, second: &str, third: &str) -> (text: String)
    ensures
        text@ == first@ + second@ + third@,
{
    let mut text = first.to_owned();
    text.append(second);
    text.append(third);
    text
}

/// Whether two texts are equal but for the case of the letters `A` to `Z`.
pub open spec fn eq_ignore_ascii_case(a: Seq<char>, b: Seq<char>) -> bool {
    &&& a.len() == b.len()
    &&& forall|i: int| 0 <= i < a.len() ==> ascii_lower(#[trigger] a[i]) == ascii_lower(b[i])
}

/// Whether `text` ends with the characters of `suffix`, but for the case
/// of the letters `A` to `Z`.
pub open spec fn ends_with_ignoring_case(text: Seq<char>, suffix: Seq<char>) -> bool {
    &&& suffix.len() <= text.len()
    &&& eq_ignore_ascii_case(text.skip(text.len() - suffix.len()), suffix)
}

/// Whether `chars[from..to]` and `word` are equal but for the case of the
/// letters `A` to `Z`.
pub fn range_matches(chars: &Vec<char>, from: usize, to: usize, word: &Vec<char>) -> (yes: bool)
    requires
        from <= to <= chars.len(),
    ensures
        yes == eq_ignore_ascii_case(chars@.subrange(from as int, to as int), word@),
{
    if to - from != word.len() {
        return false;
    }
    let ghost range = chars@.subrange(from as int, to as int);
    let mut i: usize = 0;
    while i < word.len()
        invariant
            from + word.len() == to <= chars.len(),
            range == chars@.subrange(from as int, to as int),
            i <= word.len(),
            forall|j: int| 0 <= j < i ==> ascii_lower(#[trigger] range[j]) == ascii_lower(word@[j]),
        decreases word.len() - i,
    {
        assert(range[i as int] == chars@[from + i]);
        if to_ascii_lower(chars[from + i]) != to_ascii_lower(word[i]) {
            return false;
        }
        i += 1;
    }
    true
}

/// Whether `text` ends with the characters of `suffix`, but for the case
/// of the letters `A` to `Z`.
pub fn has_suffix_ignoring_case(text: &Vec<char>, suffix: &Vec<char>) -> (yes: bool)
    ensures
        yes == ends_with_ignoring_case(text@, suffix@),
{
    if suffix.len() > text.len() {
        return false;
    }
    let from: usize = text.len() - suffix.len();
    assert(text@.skip(from as int) =~= text@.subrange(from as int, text.len() as int));
    range_matches(text, from, text.len(), suffix)
}

/// A text that may be missing, as a sequence of characters.
pub open spec fn optional_text(text: Option<String>) -> Option<Seq<char>> {
    match text {
        Some(text) => Some(text@),
        None => None,
    }
}

/// Whether two texts hold the same characters.
pub fn same_text(a: &str, b: &str) -> (yes: bool)
    ensures
        yes == (a@ == b@),
{
    let left = a.to_owned();
    let right = b.to_owned();
    left == right
}

} // verus!
