//! The names and paths of the files that hold notes.

use crate::text::{
    chars_of, eq_ignore_ascii_case, is_ascii_capital, join2, join3, lowercase, lowercase_of,
    optional_text, range_matches, string_of, string_of_range, trim_bounds, trimmed,
};
use vstd::prelude::*;

verus! {

/// Whether `c` may not stand in the name of a note's file: the separators
/// and wildcards of the common file systems, and the space.
pub open spec fn is_reserved(c: char) -> bool {
    ||| c == '/'
    ||| c == '\\'
    ||| c == ':'
    ||| c == '*'
    ||| c == '?'
    ||| c == '"'
    ||| c == '<'
    ||| c == '>'
    ||| c == '|'
    ||| c == ' '
}

/// `text` with an underscore in place of each reserved character.
pub open spec fn replaced(text: Seq<char>) -> Seq<char> {
    Seq::new(
        text.len(),
        |i: int|
            if is_reserved(text[i]) {
                '_'
            } else {
                text[i]
            },
    )
}

/// Whether `text` holds no reserved character.
pub open spec fn free_of_reserved(text: Seq<char>) -> bool {
    forall|i: int| 0 <= i < text.len() ==> !is_reserved(#[trigger] text[i])
}

/// Whether `text` holds no capital letter `A` to `Z`.
pub open spec fn free_of_ascii_capitals(text: Seq<char>) -> bool {
    forall|i: int| 0 <= i < text.len() ==> !is_ascii_capital(#[trigger] text[i])
}

/// What is left of a lowercase form: reserved characters replaced, then
/// the whitespace at both ends removed.
pub open spec fn finished(lower: Seq<char>) -> Seq<char> {
    trimmed(replaced(lower))
}

/// The fragment of a file name that stands for a title: reserved
/// characters replaced by underscores, the result in lowercase, and the
/// whitespace at both ends removed. Reserved characters are replaced once
/// more after lowercasing, so that the fragment is free of them whatever the
/// case mappings give.
pub open spec fn sanitized(title: Seq<char>) -> Seq<char> {
    finished(lowercase_of(replaced(title)))
}

/// Whether `c` may not stand in the name of a note's file.
pub fn is_reserved_char(c: char) -> (yes: bool)
    ensures
        yes == is_reserved(c),
{
    c == '/' || c == '\\' || c == ':' || c == '*' || c == '?' || c == '"' || c == '<' || c == '>'
        || c == '|' || c == ' '
}

/// A copy of `chars` with an underscore in place of each reserved character.
fn replace_in(chars: &Vec<char>) -> (out: Vec<char>)
    ensures
        out@ == replaced(chars@),
{
    let mut out: Vec<char> = Vec::new();
    let mut i: usize = 0;
    while i < chars.len()
        invariant
            i <= chars.len(),
            out@ == replaced(chars@).take(i as int),
        decreases chars.len() - i,
    {
        let c = chars[i];
        out.push(if is_reserved_char(c) { '_' } else { c });
        i += 1;
    }
    out
}

/// `title` with an underscore in place of each reserved character.
pub fn replace_reserved(title: &str) -> (text: String)
    ensures
        text@ == replaced(title@),
{
    let chars = chars_of(title);
    let out = replace_in(&chars);
    string_of(&out)
}

/// Finishes the lowercase form of a title: replaces the reserved characters
/// that it holds and removes the whitespace at both ends.
pub fn finish_filename(lower: &str) -> (text: String)
    ensures
        text@ == finished(lower@),
        free_of_reserved(text@),
        free_of_ascii_capitals(lower@) ==> free_of_ascii_capitals(text@),
{
    let chars = chars_of(lower);
    let out = replace_in(&chars);
    let (start, end) = trim_bounds(&out, 0, out.len());
    assert(out@.subrange(0, out.len() as int) =~= out@);
    string_of_range(&out, start, end)
}

/// The fragment of a file name that stands for `title`.
pub fn sanitize_filename(title: &str) -> (text: String)
    ensures
        text@ == sanitized(title@),
        free_of_reserved(text@),
        free_of_ascii_capitals(text@),
        free_of_reserved(lowercase_of(replaced(title@))) ==> text@ == trimmed(
            lowercase_of(replaced(title@)),
        ),
{
    let first = replace_reserved(title);
    let lower = lowercase(first.as_str());
    proof {
        lemma_replaced_free(lower@);
    }
    finish_filename(lower.as_str())
}

/// Replacing changes nothing in a text that holds no reserved character.
pub proof fn lemma_replaced_free(text: Seq<char>)
    ensures
        free_of_reserved(text) ==> replaced(text) == text,
        free_of_reserved(replaced(text)),
{
}

/// The path of the entry `name` of `directory`: the name alone where it
/// starts at the root, else the directory, a `/` unless the directory is
/// empty or ends in one, and the name. Paths are text whose names `/`
/// separates, read as `std::path::Path` reads them where `/` is the only
/// separator.
pub open spec fn joined(directory: Seq<char>, name: Seq<char>) -> Seq<char> {
    if name.len() > 0 && name.first() == '/' {
        name
    } else if directory.len() > 0 && directory.last() != '/' {
        directory + seq!['/'] + name
    } else {
        directory + name
    }
}

/// The path of the entry `name` of `directory`.
pub fn join_path(directory: &str, name: &str) -> (path: String)
    ensures
        path@ == joined(directory@, name@),
{
    let base = chars_of(directory);
    let entry = chars_of(name);
    if entry.len() > 0 && entry[0] == '/' {
        name.to_owned()
    } else if base.len() > 0 && base[base.len() - 1] != '/' {
        proof {
            reveal_strlit("/");
        }
        join3(directory, "/", name)
    } else {
        join2(directory, name)
    }
}

/// The last position of `c` in `text`, or -1 where `text` does not hold it.
pub open spec fn last_index_of(text: Seq<char>, c: char) -> int
    decreases text.len(),
{
    if text.len() == 0 {
        -1
    } else if text.last() == c {
        text.len() - 1
    } else {
        last_index_of(text.drop_last(), c)
    }
}

/// What `last_index_of` finds: a position of `c` after which `text` holds no
/// other, or -1 where it holds none.
pub proof fn lemma_last_index_of(text: Seq<char>, c: char, k: int)
    requires
        -1 <= k < text.len(),
        k >= 0 ==> text[k] == c,
        forall|i: int| k < i < text.len() ==> #[trigger] text[i] != c,
    ensures
        last_index_of(text, c) == k,
    decreases text.len(),
{
    if text.len() > 0 && text.last() != c {
        let rest = text.drop_last();
        lemma_last_index_of(rest, c, k);
    }
}

/// Where the names of a path begin: after the `/` of a path from the root,
/// after the `.` of a path that is `.` or begins with `./`, and at the start
/// of any other path.
pub open spec fn names_start(path: Seq<char>) -> nat {
    if path.len() > 0 && path[0] == '/' {
        1
    } else if path.len() > 0 && path[0] == '.' && (path.len() == 1 || path[1] == '/') {
        1
    } else {
        0
    }
}

/// `path` without the empty names and the names `.` at its end, with the
/// `/` before them, down to where its names begin: `a/b/`, `a/b//` and
/// `a/b/.` give `a/b`.
pub open spec fn without_trailing(path: Seq<char>, start: nat) -> Seq<char>
    decreases path.len(),
{
    if path.len() <= start {
        path
    } else {
        let slash: int = last_index_of(path, '/');
        let name = path.skip(slash + 1);
        if name.len() == 0 || name == seq!['.'] {
            if start <= slash < path.len() {
                without_trailing(path.take(slash), start)
            } else {
                path.take(start as int)
            }
        } else {
            path
        }
    }
}

/// The name of the file or directory that a path leads to: its last name,
/// where empty names and names `.` are passed over. A path without a name,
/// such as `/`, and a path that ends in `..` lead to none.
pub open spec fn file_name(path: Seq<char>) -> Option<Seq<char>> {
    let start = names_start(path);
    let rest = without_trailing(path, start);
    if rest.len() <= start {
        None
    } else {
        let name = rest.skip(last_index_of(rest, '/') + 1);
        if name == seq!['.', '.'] {
            None
        } else {
            Some(name)
        }
    }
}

/// The path of the directory that holds what a path leads to: the path
/// without its last name, where empty names and names `.` are passed over.
/// The root and the empty path lie in no directory.
pub open spec fn parent_of(path: Seq<char>) -> Option<Seq<char>> {
    let start = names_start(path);
    let rest = without_trailing(path, start);
    if rest.len() <= start {
        if path.len() > 0 && path[0] == '.' {
            Some(Seq::empty())
        } else {
            None
        }
    } else {
        let slash: int = last_index_of(rest, '/');
        let above = if slash >= start {
            rest.take(slash)
        } else {
            rest.take(start as int)
        };
        Some(without_trailing(above, start))
    }
}

/// The extension of the file that a path leads to: what follows the last
/// `.` of the file's name, where the name holds one that is not its first
/// character.
pub open spec fn extension(path: Seq<char>) -> Option<Seq<char>> {
    match file_name(path) {
        Some(name) => {
            let dot: int = last_index_of(name, '.');
            if dot > 0 {
                Some(name.skip(dot + 1))
            } else {
                None
            }
        },
        None => None,
    }
}

/// Whether a path leads to a markdown file: one whose extension is `md` or
/// `markdown`, in any case.
pub open spec fn is_markdown_path(path: Seq<char>) -> bool {
    match extension(path) {
        Some(found) => eq_ignore_ascii_case(found, seq!['m', 'd']) || eq_ignore_ascii_case(
            found,
            seq!['m', 'a', 'r', 'k', 'd', 'o', 'w', 'n'],
        ),
        None => false,
    }
}

/// Where the names of the path `chars` begin.
fn start_of_names(chars: &Vec<char>) -> (start: usize)
    ensures
        start == names_start(chars@),
        start <= 1,
{
    if chars.len() > 0 && chars[0] == '/' {
        1
    } else if chars.len() > 0 && chars[0] == '.' && (chars.len() == 1 || chars[1] == '/') {
        1
    } else {
        0
    }
}

/// The position after the last `/` of `chars[..end]`, or 0 where it holds
/// none.
fn after_last_slash(chars: &Vec<char>, end: usize) -> (after: usize)
    requires
        end <= chars.len(),
    ensures
        after <= end,
        after == last_index_of(chars@.take(end as int), '/') + 1,
{
    let mut after: usize = end;
    while after > 0 && chars[after - 1] != '/'
        invariant
            after <= end <= chars.len(),
            forall|i: int| after <= i < end ==> #[trigger] chars@[i] != '/',
        decreases after,
    {
        after -= 1;
    }
    proof {
        lemma_last_index_of(chars@.take(end as int), '/', after - 1);
    }
    after
}

/// The end of `chars[..end]` without the empty names and the names `.` at
/// its end.
fn end_without_trailing(chars: &Vec<char>, start: usize, end: usize) -> (stop: usize)
    requires
        end <= chars.len(),
    ensures
        stop <= end,
        chars@.take(stop as int) == without_trailing(chars@.take(end as int), start as nat),
{
    let mut stop: usize = end;
    while stop > start
        invariant
            stop <= end <= chars.len(),
            without_trailing(chars@.take(end as int), start as nat) == without_trailing(
                chars@.take(stop as int),
                start as nat,
            ),
        decreases stop,
    {
        let after = after_last_slash(chars, stop);
        let ghost path = chars@.take(stop as int);
        let ghost name = path.skip(after as int);
        if after == stop || (stop - after == 1 && chars[after] == '.') {
            proof {
                if after < stop {
                    assert(name[0] == chars@[after as int]);
                    assert(name =~= seq!['.']);
                }
            }
            if after > start {
                assert(path.take(after - 1) =~= chars@.take(after - 1));
                stop = after - 1;
            } else {
                assert(path.take(start as int) =~= chars@.take(start as int));
                return start;
            }
        } else {
            proof {
                if name.len() == 1 {
                    assert(name[0] == chars@[after as int]);
                }
            }
            return stop;
        }
    }
    stop
}

/// The bounds in `chars` of the name of the file or directory that the
/// path `chars` leads to.
fn name_bounds(chars: &Vec<char>) -> (bounds: Option<(usize, usize)>)
    ensures
        match bounds {
            Some((from, to)) => from <= to <= chars.len() && file_name(chars@) == Some(
                chars@.subrange(from as int, to as int),
            ),
            None => file_name(chars@) is None,
        },
{
    let start = start_of_names(chars);
    assert(chars@.take(chars.len() as int) =~= chars@);
    let end = end_without_trailing(chars, start, chars.len());
    if end <= start {
        return None;
    }
    let from = after_last_slash(chars, end);
    assert(chars@.take(end as int).skip(from as int) =~= chars@.subrange(from as int, end as int));
    if end - from == 2 && chars[from] == '.' && chars[from + 1] == '.' {
        assert(chars@.subrange(from as int, end as int) =~= seq!['.', '.']);
        return None;
    }
    proof {
        let name = chars@.subrange(from as int, end as int);
        if name == seq!['.', '.'] {
            assert(name[0] == chars@[from as int]);
            assert(name[1] == chars@[from + 1]);
        }
    }
    Some((from, end))
}

/// Whether `path` leads to a markdown file.
pub fn is_markdown_file(path: &str) -> (yes: bool)
    ensures
        yes == is_markdown_path(path@),
{
    let chars = chars_of(path);
    match name_bounds(&chars) {
        None => false,
        Some((from, end)) => {
            let mut after: usize = end;
            while after > from && chars[after - 1] != '.'
                invariant
                    from <= after <= end <= chars.len(),
                    forall|i: int| after <= i < end ==> #[trigger] chars@[i] != '.',
                decreases after,
            {
                after -= 1;
            }
            proof {
                let name = chars@.subrange(from as int, end as int);
                lemma_last_index_of(name, '.', after - from - 1);
                assert(name.skip(after - from) =~= chars@.subrange(after as int, end as int));
            }
            if after - from < 2 {
                return false;
            }
            let md = vec!['m', 'd'];
            let markdown = vec!['m', 'a', 'r', 'k', 'd', 'o', 'w', 'n'];
            range_matches(&chars, after, end, &md) || range_matches(&chars, after, end, &markdown)
        },
    }
}

/// The path of the directory that holds what `path` leads to.
pub fn parent_path(path: &str) -> (parent: Option<String>)
    ensures
        optional_text(parent) == parent_of(path@),
{
    let chars = chars_of(path);
    let start = start_of_names(&chars);
    assert(chars@.take(chars.len() as int) =~= chars@);
    let end = end_without_trailing(&chars, start, chars.len());
    if end <= start {
        if chars.len() > 0 && chars[0] == '.' {
            return Some(string_of_range(&chars, 0, 0));
        }
        return None;
    }
    let from = after_last_slash(&chars, end);
    let above: usize = if from > start {
        from - 1
    } else {
        start
    };
    assert(chars@.take(end as int).take(above as int) =~= chars@.take(above as int));
    let stop = end_without_trailing(&chars, start, above);
    assert(chars@.subrange(0, stop as int) =~= chars@.take(stop as int));
    assert(above >= start ==> chars@.take(end as int).take(start as int) =~= chars@.take(
        start as int,
    ));
    Some(string_of_range(&chars, 0, stop))
}

} // verus!
