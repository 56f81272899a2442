//! The text of a note: the heading that gives its title, and what a new
//! note holds.

use crate::text::{
    chars_of, is_whitespace, is_whitespace_char, join3, leading, lemma_leading, lemma_leading_run,
    optional_text, string_of_range, trim_bounds, trim_start, trimmed, whitespace,
};
use crate::utils::{get_utc_time, is_timestamp, lemma_timestamp_is_one_line};
use vstd::prelude::*;
use vstd::string::StringExecFns;

verus! {

/// The test for a character other than the line feed, as a value.
pub open spec fn not_line_feed() -> spec_fn(char) -> bool {
    |c: char| c != '\n'
}

/// The test for the heading marker `#`, as a value.
pub open spec fn heading_marker() -> spec_fn(char) -> bool {
    |c: char| c == '#'
}

/// The first line of `text`: what stands before its first line feed.
pub open spec fn first_line(text: Seq<char>) -> Seq<char> {
    text.take(leading(text, not_line_feed()) as int)
}

/// The title that a line gives, where it is a heading: a line that starts,
/// after whitespace, with `#` gives what follows its heading markers, without
/// the whitespace at both ends.
pub open spec fn heading_of(line: Seq<char>) -> Option<Seq<char>> {
    let body = trim_start(line);
    if body.len() > 0 && body.first() == '#' {
        Some(trimmed(body.skip(leading(body, heading_marker()) as int)))
    } else {
        None
    }
}

/// The title of a note with the given content: the title that its first
/// heading line gives. Lines end at line feeds; a carriage return before one
/// is whitespace and is trimmed with the rest.
pub open spec fn heading_title(content: Seq<char>) -> Option<Seq<char>>
    decreases content.len(),
{
    if content.len() == 0 {
        None
    } else {
        let end: nat = leading(content, not_line_feed());
        match heading_of(content.take(end as int)) {
            Some(title) => Some(title),
            None => if end < content.len() {
                heading_title(content.skip(end as int + 1))
            } else {
                None
            },
        }
    }
}

/// The title that the line `chars[from..to]` gives, where it is a heading.
fn heading_in(chars: &Vec<char>, from: usize, to: usize) -> (title: Option<String>)
    requires
        from <= to <= chars.len(),
    ensures
        optional_text(title) == heading_of(chars@.subrange(from as int, to as int)),
{
    let ghost line = chars@.subrange(from as int, to as int);
    let mut start: usize = from;
    while start < to && is_whitespace_char(chars[start])
        invariant
            from <= start <= to <= chars.len(),
            forall|i: int| from <= i < start ==> is_whitespace(#[trigger] chars@[i]),
        decreases to - start,
    {
        start += 1;
    }
    proof {
        lemma_leading(line, whitespace(), start - from);
        assert(trim_start(line) =~= chars@.subrange(start as int, to as int));
    }
    if start == to || chars[start] != '#' {
        return None;
    }
    let mut after: usize = start;
    while after < to && chars[after] == '#'
        invariant
            start <= after <= to <= chars.len(),
            forall|i: int| start <= i < after ==> #[trigger] chars@[i] == '#',
        decreases to - after,
    {
        after += 1;
    }
    proof {
        let body = chars@.subrange(start as int, to as int);
        lemma_leading(body, heading_marker(), after - start);
        assert(body.skip(after - start) =~= chars@.subrange(after as int, to as int));
    }
    let (first, last) = trim_bounds(chars, after, to);
    Some(string_of_range(chars, first, last))
}

/// The title of a note with the given content, where the content holds a
/// heading line.
pub fn extract_title(content: &str) -> (title: Option<String>)
    ensures
        optional_text(title) == heading_title(content@),
{
    let chars = chars_of(content);
    let mut from: usize = 0;
    assert(chars@.skip(0) =~= chars@);
    while from < chars.len()
        invariant
            from <= chars.len(),
            chars@ == content@,
            heading_title(content@) == heading_title(chars@.skip(from as int)),
        decreases chars.len() - from,
    {
        let mut to: usize = from;
        while to < chars.len() && chars[to] != '\n'
            invariant
                from <= to <= chars.len(),
                forall|i: int| from <= i < to ==> #[trigger] chars@[i] != '\n',
            decreases chars.len() - to,
        {
            to += 1;
        }
        proof {
            let rest = chars@.skip(from as int);
            lemma_leading(rest, not_line_feed(), to - from);
            assert(rest.take(to - from) =~= chars@.subrange(from as int, to as int));
            if to < chars.len() {
                assert(rest.skip(to - from + 1) =~= chars@.skip(to + 1));
            }
        }
        let found = heading_in(&chars, from, to);
        if found.is_some() {
            return found;
        }
        if to == chars.len() {
            return None;
        }
        from = to + 1;
    }
    None
}

/// The block at the head of a new note, which records when it was made.
pub open spec fn metadata_block(created_at: Seq<char>) -> Seq<char> {
    "---\ncreated_at: "@ + created_at + "\n---\n"@
}

/// The content of a new note: the block of metadata, the title as a
/// heading of the first level, and an empty line.
pub open spec fn note_text(created_at: Seq<char>, title: Seq<char>) -> Seq<char> {
    metadata_block(created_at) + "# "@ + title + "\n\n"@
}

/// The block at the head of a note made at `created_at`.
pub fn metadata_block_at(created_at: &str) -> (block: String)
    ensures
        block@ == metadata_block(created_at@),
{
    join3("---\ncreated_at: ", created_at, "\n---\n")
}

/// The block at the head of a note made now, where the clock reads a time
/// that a timestamp can hold.
pub fn get_minimal_metadata_content() -> (block: Option<String>)
    ensures
        block matches Some(text) ==> exists|now: Seq<char>|
            is_timestamp(now) && text@ == metadata_block(now),
{
    match get_utc_time() {
        Some(now) => Some(metadata_block_at(now.as_str())),
        None => None,
    }
}

/// The content of a note with the given title, made at `created_at`.
pub fn note_content(created_at: &str, title: &str) -> (content: String)
    ensures
        content@ == note_text(created_at@, title@),
{
    let mut content = metadata_block_at(created_at);
    content.append("# ");
    content.append(title);
    content.append("\n\n");
    content
}

/// A line that is followed by a line feed gives the title of the whole text
/// where it is a heading; where it is not, what follows the line feed does.
pub proof fn lemma_heading_after_line(line: Seq<char>, rest: Seq<char>)
    requires
        forall|i: int| 0 <= i < line.len() ==> #[trigger] line[i] != '\n',
    ensures
        heading_title(line + seq!['\n'] + rest) == match heading_of(line) {
            Some(title) => Some(title),
            None => heading_title(rest),
        },
{
    let content = line + seq!['\n'] + rest;
    lemma_leading(content, not_line_feed(), line.len() as int);
    assert(content.take(line.len() as int) =~= line);
    assert(content.skip(line.len() as int + 1) =~= rest);
}

/// The heading line that a new note holds gives back the title, without
/// the whitespace at both ends.
pub proof fn lemma_heading_of_title(title: Seq<char>)
    ensures
        heading_of(seq!['#', ' '] + title) == Some(trimmed(title)),
{
    let line = seq!['#', ' '] + title;
    assert(trim_start(line) =~= line);
    lemma_leading(line, heading_marker(), 1);
    let tail = line.skip(1);
    assert(tail.drop_first() =~= title);
    lemma_leading_run(title, whitespace());
    assert(trim_start(tail) =~= trim_start(title));
}

/// Reading the content of a new note gives back the first line of the
/// title that it was made with, without the whitespace at both ends: the
/// title itself, where it holds no line feed and neither starts nor ends with
/// whitespace.
pub proof fn lemma_title_round_trip(created_at: Seq<char>, title: Seq<char>)
    requires
        is_timestamp(created_at),
    ensures
        heading_title(note_text(created_at, title)) == Some(trimmed(first_line(title))),
        first_line(title) == title && trimmed(title) == title ==> heading_title(
            note_text(created_at, title),
        ) == Some(title),
{
    lemma_timestamp_is_one_line(created_at);
    reveal_strlit("---\ncreated_at: ");
    reveal_strlit("\n---\n");
    reveal_strlit("# ");
    reveal_strlit("\n\n");
    let rule = seq!['-', '-', '-'];
    let stamp = seq!['c', 'r', 'e', 'a', 't', 'e', 'd', '_', 'a', 't', ':', ' '] + created_at;
    let end: nat = leading(title, not_line_feed());
    lemma_leading_run(title, not_line_feed());
    let head = seq!['#', ' '] + first_line(title);
    let tail = title.skip(end as int + 1) + seq!['\n', '\n'];
    let after = if end < title.len() {
        tail
    } else {
        seq!['\n']
    };
    let last = head + seq!['\n'] + after;
    let third = rule + seq!['\n'] + last;
    let second = stamp + seq!['\n'] + third;
    assert(note_text(created_at, title) =~= rule + seq!['\n'] + second);
    lemma_heading_after_line(rule, second);
    lemma_heading_after_line(stamp, third);
    lemma_heading_after_line(rule, last);
    lemma_heading_after_line(head, after);
    lemma_heading_of_title(first_line(title));
}

} // verus!
