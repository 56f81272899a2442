use memoria::content::{
    extract_title, get_minimal_metadata_content, metadata_block_at, note_content,
};
use memoria::filename::{
    finish_filename, is_markdown_file, is_reserved_char, join_path, parent_path,
    replace_reserved, sanitize_filename,
};
use memoria::text::{
    chars_of, has_suffix_ignoring_case, is_whitespace_char, join2, join3, range_matches,
    same_text, string_of, string_of_range, to_ascii_lower, trim_bounds,
};
use memoria::utils::{get_utc_time, timestamp_at, ClockReading};
use std::path::Path;

const RESERVED: [char; 10] = ['/', '\\', ':', '*', '?', '"', '<', '>', '|', ' '];

/// The fragment of a file name as the standard library alone makes it.
fn plain_sanitize(title: &str) -> String {
    title
        .chars()
        .map(|c| if RESERVED.contains(&c) { '_' } else { c })
        .collect::<String>()
        .to_lowercase()
        .trim()
        .to_string()
}

/// The title of a text as the standard library alone finds it.
fn plain_title(content: &str) -> Option<String> {
    content.lines().find_map(|line| {
        let trimmed = line.trim_start();
        if trimmed.starts_with('#') {
            Some(trimmed.trim_start_matches('#').trim().to_string())
        } else {
            None
        }
    })
}

/// Whether a path leads to a markdown file, as the standard library alone
/// tells it.
fn plain_markdown(path: &str) -> bool {
    Path::new(path)
        .extension()
        .and_then(|ext| ext.to_str())
        .map(|ext| ext.eq_ignore_ascii_case("md") || ext.eq_ignore_ascii_case("markdown"))
        .unwrap_or(false)
}

const TITLES: [&str; 24] = [
    "Test Note",
    "",
    " ",
    "a/b\\c:d*e?f\"g<h>i|j k",
    "  spaced  ",
    "\tTabbed\t",
    "\nline\n",
    "\u{a0}Hard Space\u{3000}",
    "ALL CAPS",
    "MiXeD: Case / Title",
    "ÀÉÎÕÜ",
    "İstanbul",
    "ὈΔΥΣΣΕΎΣ",
    "AΣ:B",
    "AΣ B",
    "AΣ",
    "Σ",
    "ΑΣ.Β",
    "农历新年",
    "ǅungla",
    "K\u{212a}elvin",
    "🙂 Emoji Title",
    "../../etc/passwd",
    "trailing dot.",
];

#[test]
fn sanitize_replaces_lowercases_and_trims() {
    assert_eq!(sanitize_filename("Test Note"), "test_note");
    assert_eq!(sanitize_filename("a/b\\c:d*e?f\"g<h>i|j k"), "a_b_c_d_e_f_g_h_i_j_k");
    assert_eq!(sanitize_filename("ALL CAPS"), "all_caps");
    assert_eq!(sanitize_filename(""), "");
    assert_eq!(sanitize_filename("../../etc/passwd"), ".._.._etc_passwd");
    assert_eq!(sanitize_filename("ὈΔΥΣΣΕΎΣ"), "ὀδυσσεύς");
    assert_eq!(sanitize_filename("农历新年"), "农历新年");
}

#[test]
fn sanitize_turns_spaces_into_underscores_before_it_trims() {
    assert_eq!(sanitize_filename("  spaced  "), "__spaced__");
    assert_eq!(sanitize_filename("\tTabbed\t"), "tabbed");
    assert_eq!(sanitize_filename("\nline\n"), "line");
    assert_eq!(sanitize_filename(" \t x \t "), "_\t_x_\t_");
    assert_eq!(sanitize_filename("\u{a0}Hard Space\u{3000}"), "hard_space");
}

#[test]
fn sanitize_gives_what_the_plain_steps_give() {
    for title in TITLES {
        assert_eq!(sanitize_filename(title), plain_sanitize(title), "for {:?}", title);
    }
}

#[test]
fn sanitized_names_hold_no_reserved_character_and_no_capital() {
    for title in TITLES {
        let name = sanitize_filename(title);
        for c in name.chars() {
            assert!(!RESERVED.contains(&c), "{:?} in {:?}", c, name);
            assert!(!c.is_ascii_uppercase(), "{:?} in {:?}", c, name);
        }
        assert_eq!(name.to_lowercase(), name);
    }
}

#[test]
fn sanitize_of_every_single_character_matches_the_plain_steps() {
    for code in 0..=0x10ffff_u32 {
        if let Some(c) = char::from_u32(code) {
            let title = c.to_string();
            let name = sanitize_filename(&title);
            assert_eq!(name, plain_sanitize(&title), "for {:?}", c);
            assert!(name.chars().all(|n| !RESERVED.contains(&n) && !n.is_ascii_uppercase()));
        }
    }
}

#[test]
fn replacing_and_finishing_are_the_steps_of_sanitizing() {
    assert_eq!(replace_reserved("Test Note: a/b"), "Test_Note__a_b");
    assert_eq!(replace_reserved("plain"), "plain");
    assert_eq!(finish_filename("\ttest note\n"), "test_note");
    assert_eq!(finish_filename("a:b"), "a_b");
    assert_eq!(finish_filename("   "), "___");
    assert_eq!(finish_filename(" \t "), "_\t_");
    for c in RESERVED {
        assert!(is_reserved_char(c));
    }
    for c in ['_', 'a', 'Z', '.', '-', '\t', '\n', '#', '\u{a0}'] {
        assert!(!is_reserved_char(c));
    }
}

#[test]
fn whitespace_is_what_the_standard_library_takes_for_it() {
    for code in 0..=0x10ffff_u32 {
        if let Some(c) = char::from_u32(code) {
            assert_eq!(is_whitespace_char(c), c.is_whitespace(), "for {:?}", c);
        }
    }
    assert!(is_whitespace_char('\t'));
    assert!(is_whitespace_char(' '));
    assert!(!is_whitespace_char('#'));
    assert!(!is_whitespace_char('\u{200b}'));
}

#[test]
fn small_letters_are_those_of_the_standard_library() {
    for code in 0..=0x10ffff_u32 {
        if let Some(c) = char::from_u32(code) {
            assert_eq!(to_ascii_lower(c), c.to_ascii_lowercase(), "for {:?}", c);
        }
    }
    assert_eq!(to_ascii_lower('Q'), 'q');
    assert_eq!(to_ascii_lower('q'), 'q');
    assert_eq!(to_ascii_lower('É'), 'É');
}

#[test]
fn trimming_is_that_of_the_standard_library() {
    let samples = [
        "", " ", "a", " a", "a ", "  a b  ", "\t\n", "\u{a0}x\u{2003}", "x\u{200b}", "\r\nx\r\n",
        " \u{feff}x ", "   ", "x   y",
    ];
    for sample in samples {
        let chars = chars_of(sample);
        let (start, end) = trim_bounds(&chars, 0, chars.len());
        assert_eq!(string_of_range(&chars, start, end), sample.trim(), "for {:?}", sample);
    }
    let chars = chars_of("ab  cd  ef");
    let (start, end) = trim_bounds(&chars, 2, 8);
    assert_eq!((start, end), (4, 6));
}

#[test]
fn characters_and_texts_convert_both_ways() {
    for sample in ["", "abc", "ὈΔΥΣΣΕΎΣ", "🙂 x", "a\u{0}b"] {
        let chars = chars_of(sample);
        assert_eq!(chars, sample.chars().collect::<Vec<char>>());
        assert_eq!(string_of(&chars), sample);
    }
    assert_eq!(string_of_range(&chars_of("hello"), 1, 3), "el");
    assert_eq!(join2("ab", "cd"), "abcd");
    assert_eq!(join3("ab", "", "cd"), "abcd");
    assert!(same_text("abc", "abc"));
    assert!(!same_text("abc", "abd"));
    assert!(!same_text("abc", "ab"));
    assert!(has_suffix_ignoring_case(&chars_of("note.md"), &chars_of(".md")));
    assert!(has_suffix_ignoring_case(&chars_of("NOTE.Md"), &chars_of(".md")));
    assert!(!has_suffix_ignoring_case(&chars_of("md"), &chars_of(".md")));
    assert!(!has_suffix_ignoring_case(&chars_of("note.m\u{212a}"), &chars_of(".mk")));
    assert!(has_suffix_ignoring_case(&chars_of("x"), &chars_of("")));
    assert!(range_matches(&chars_of("a.MD.b"), 2, 4, &chars_of("md")));
    assert!(!range_matches(&chars_of("a.MD.b"), 2, 5, &chars_of("md")));
}

const PATHS: [&str; 64] = [
    "a.md", "a.MD", "a.markdown", "/notes/first.md", "/notes/second.MARKDOWN", "/notes/.md",
    "/notes/archive.md/old.txt", "relative/dir/file.Md", "a.b.c.md", "a..md", "..md", "...md",
    "noext", "/x/y.z/noext", "a.md.bak", "ünï.md", "a.m\u{212a}", "/", "", ".", "..", "a.",
    ".hidden", "dir/", "x.markdown.md", "x.md.markdown", "x.mD", "a.md/", "a.md/.", "a.md//",
    "a.md/./", "a.md/..", "a.md/../", "./a.md", "./.md", ".//a.md", "./", ".//", "./.", "/.",
    "/..", "//", "//a.md", "/a.md/", "a/./b.md", "a/b.md/././/", "..a.md", ".a.md", "../a.md",
    "a/../b.markdown/", ".md", ".md/", "./.", "x/.md/.", "...", "a/...", ".../a.md", "a.md/...",
    "a\\b.md", "a.md\\", " .md", "a.md ", "a.md/ ", "./..",
];

#[test]
fn markdown_files_are_told_by_their_extension() {
    for path in [
        "a.md", "a.MD", "a.Md", "a.markdown", "a.MARKDOWN", "dir/a.md", "a.b.md", "..md", "a.md/",
        "a.md/.", "a.md//", "./a.md",
    ] {
        assert!(is_markdown_file(path), "for {:?}", path);
    }
    for path in [
        "", "a", "md", "a.txt", "a.md.bak", ".md", "dir/.md", "dir.md/file", "a.mdx", "a.", "a.m",
        "a.markdow", "markdown", ".markdown", "a md", "a.md ", "..", ".", "a.md/..", "./.md",
    ] {
        assert!(!is_markdown_file(path), "for {:?}", path);
    }
}

#[test]
fn markdown_files_are_those_of_the_standard_library() {
    for sample in PATHS {
        assert_eq!(is_markdown_file(sample), plain_markdown(sample), "for {:?}", sample);
    }
}

#[test]
fn parents_are_those_of_the_standard_library() {
    for sample in PATHS {
        let expected = Path::new(sample).parent().map(|p| p.to_string_lossy().into_owned());
        assert_eq!(parent_path(sample), expected, "for {:?}", sample);
    }
    assert_eq!(parent_path("/home/alice/config.toml"), Some("/home/alice".to_string()));
    assert_eq!(parent_path("a/b/"), Some("a".to_string()));
    assert_eq!(parent_path("config.toml"), Some("".to_string()));
    assert_eq!(parent_path("/config.toml"), Some("/".to_string()));
    assert_eq!(parent_path("/"), None);
    assert_eq!(parent_path(""), None);
}

#[test]
fn paths_join_as_those_of_the_standard_library() {
    let samples = [
        ("/notes", "a.md"),
        ("/notes/", "a.md"),
        ("", "a.md"),
        ("notes", ""),
        ("./notes", "test_note.md"),
        ("/notes", "/abs.md"),
        ("/", "a"),
        ("a/b", "c/d"),
        ("", ""),
    ];
    for (directory, name) in samples {
        let joined = Path::new(directory).join(name);
        let expected = joined.to_string_lossy();
        assert_eq!(join_path(directory, name), expected, "for {:?}", (directory, name));
    }
    assert_eq!(join_path("/notes", "a.md"), "/notes/a.md");
    assert_eq!(join_path("/notes/", "a.md"), "/notes/a.md");
    let alphabet = ['/', '.', 'a'];
    let mut texts = vec![String::new()];
    let mut from = 0;
    for _ in 0..4 {
        let until = texts.len();
        for i in from..until {
            for c in alphabet {
                let mut longer = texts[i].clone();
                longer.push(c);
                texts.push(longer);
            }
        }
        from = until;
    }
    for directory in &texts {
        for name in &texts {
            let expected = Path::new(directory).join(name);
            assert_eq!(
                join_path(directory, name),
                expected.to_string_lossy(),
                "for {:?}",
                (directory, name)
            );
        }
    }
}

#[test]
fn titles_are_taken_from_the_first_heading() {
    assert_eq!(extract_title("# Title\n"), Some("Title".to_string()));
    assert_eq!(
        extract_title("text\n## Second level ##\nmore"),
        Some("Second level ##".to_string())
    );
    assert_eq!(extract_title("   #   padded   \n"), Some("padded".to_string()));
    assert_eq!(extract_title("#\n"), Some("".to_string()));
    assert_eq!(extract_title("#NoSpace"), Some("NoSpace".to_string()));
    assert_eq!(extract_title("# one\r\n# two\r\n"), Some("one".to_string()));
    assert_eq!(extract_title(""), None);
    assert_eq!(extract_title("no heading\nat all"), None);
    assert_eq!(extract_title("text # not at the start"), None);
    assert_eq!(
        extract_title("---\ncreated_at: 2024-01-15T10:30:00.123Z\n---\n# My Title\n\n"),
        Some("My Title".to_string())
    );
}

#[test]
fn titles_are_those_that_the_standard_library_finds() {
    let samples = [
        "", "\n", "\r\n", "#", "# a", "#\r", "#\r\n", "\r#\n", " \t# a \t", "a\n#b", "a\r\n#b\r\n",
        "a\rb\n# c", "\n\n\n### deep ###\n", "x#y\n", "# one\n# two", "\u{a0}# hard space",
        "\u{3000}#\u{3000}wide\u{3000}", "##\n#", "# \n", "-#\n", "text\n\n", "# a\rb",
        "#\u{b}vt", "\u{c}# ff",
    ];
    for sample in samples {
        assert_eq!(extract_title(sample), plain_title(sample), "for {:?}", sample);
    }
}

#[test]
fn new_notes_hold_metadata_heading_and_an_empty_line() {
    assert_eq!(
        note_content("2024-01-15T10:30:00.123Z", "My Title"),
        "---\ncreated_at: 2024-01-15T10:30:00.123Z\n---\n# My Title\n\n"
    );
    assert_eq!(
        metadata_block_at("2024-01-15T10:30:00.123Z"),
        "---\ncreated_at: 2024-01-15T10:30:00.123Z\n---\n"
    );
    assert_eq!(note_content("", ""), "---\ncreated_at: \n---\n# \n\n");
}

/// Whether a text has the form of a timestamp.
fn has_timestamp_form(text: &str) -> bool {
    let chars: Vec<char> = text.chars().collect();
    if chars.len() < 24 {
        return false;
    }
    let (year, rest) = chars.split_at(chars.len() - 20);
    let digits = |part: &[char]| part.iter().all(|c| c.is_ascii_digit());
    let year_fits = (year.len() == 4 && digits(year))
        || (year.len() >= 6 && year[0] == '+' && digits(&year[1..]))
        || (year.len() >= 5 && year[0] == '-' && digits(&year[1..]));
    year_fits
        && rest.iter().enumerate().all(|(i, c)| match i {
            0 | 3 => *c == '-',
            6 => *c == 'T',
            9 | 12 => *c == ':',
            15 => *c == '.',
            19 => *c == 'Z',
            _ => c.is_ascii_digit(),
        })
}

fn reading(before_epoch: bool, seconds: u64, nanos: u32) -> ClockReading {
    ClockReading { before_epoch, seconds, nanos }
}

#[test]
fn the_clock_writes_utc_with_milliseconds() {
    let now = get_utc_time().unwrap();
    assert_eq!(now.chars().count(), 24);
    assert!(has_timestamp_form(&now));
    assert!(now.as_str() > "2024-01-01T00:00:00.000Z");
    let block = get_minimal_metadata_content().unwrap();
    assert!(block.starts_with("---\ncreated_at: "));
    assert!(block.ends_with("Z\n---\n"));
    assert_eq!(block.len(), "---\ncreated_at: ".len() + 24 + "\n---\n".len());
}

#[test]
fn readings_of_the_clock_are_written_as_timestamps() {
    let cases = [
        (reading(false, 0, 0), "1970-01-01T00:00:00.000Z"),
        (reading(false, 1705314600, 123_000_000), "2024-01-15T10:30:00.123Z"),
        (reading(false, 1705314600, 123_999_999), "2024-01-15T10:30:00.123Z"),
        (reading(false, 951782400, 0), "2000-02-29T00:00:00.000Z"),
        (reading(true, 0, 0), "1970-01-01T00:00:00.000Z"),
        (reading(true, 0, 500_000_000), "1969-12-31T23:59:59.500Z"),
        (reading(true, 1, 0), "1969-12-31T23:59:59.000Z"),
        (reading(true, 1, 1), "1969-12-31T23:59:58.999Z"),
        (reading(true, 86400, 0), "1969-12-31T00:00:00.000Z"),
        (reading(false, 253402300799, 999_000_000), "9999-12-31T23:59:59.999Z"),
        (reading(false, 253402300800, 0), "+10000-01-01T00:00:00.000Z"),
        (reading(true, 62167219200, 0), "0000-01-01T00:00:00.000Z"),
        (reading(true, 62167219201, 0), "-0001-12-31T23:59:59.000Z"),
        (reading(true, 30610224000, 0), "1000-01-01T00:00:00.000Z"),
        (reading(true, 30610224001, 0), "0999-12-31T23:59:59.000Z"),
    ];
    for (clock, expected) in cases {
        let written = timestamp_at(clock).unwrap();
        assert_eq!(written, expected, "for {:?}", clock);
        assert!(has_timestamp_form(&written), "for {:?}", clock);
    }
}

#[test]
fn readings_beyond_the_calendar_have_no_timestamp() {
    for clock in [
        reading(false, u64::MAX, 0),
        reading(true, u64::MAX, 0),
        reading(false, 1 << 63, 0),
        reading(true, 1 << 63, 0),
        reading(false, i64::MAX as u64, 0),
        reading(true, i64::MAX as u64, 1),
        reading(false, 9_000_000_000_000, 0),
        reading(true, 9_000_000_000_000, 0),
        reading(false, 0, 1_000_000_000),
        reading(true, 5, 2_000_000_000),
    ] {
        assert_eq!(timestamp_at(clock), None, "for {:?}", clock);
    }
    let last = timestamp_at(reading(false, 8_210_266_876_799, 999_999_999)).unwrap();
    assert_eq!(last, "+262142-12-31T23:59:59.999Z");
    assert!(has_timestamp_form(&last));
    let first = timestamp_at(reading(true, 8_334_601_228_800, 0)).unwrap();
    assert_eq!(first, "-262143-01-01T00:00:00.000Z");
    assert!(has_timestamp_form(&first));
}

#[test]
fn paths_of_every_form_are_read_as_the_standard_library_reads_them() {
    let alphabet = ['/', '.', 'm', 'd', 'A'];
    let mut paths = vec![String::new()];
    let mut from = 0;
    for _ in 0..7 {
        let until = paths.len();
        for i in from..until {
            for c in alphabet {
                let mut longer = paths[i].clone();
                longer.push(c);
                paths.push(longer);
            }
        }
        from = until;
    }
    assert_eq!(paths.len(), 97656);
    for path in &paths {
        assert_eq!(is_markdown_file(path), plain_markdown(path), "for {:?}", path);
        let parent = Path::new(path).parent().map(|p| p.to_string_lossy().into_owned());
        assert_eq!(parent_path(path), parent, "for {:?}", path);
    }
}

#[test]
fn titles_of_new_notes_read_back() {
    for title in ["My Title", "x", "#tag", "a # b", "Ünïcode", "With: colon", "tab\tinside"] {
        let content = note_content("2024-01-15T10:30:00.123Z", title);
        assert_eq!(extract_title(&content), Some(title.to_string()));
    }
    let content = note_content("2024-01-15T10:30:00.123Z", "  padded  ");
    assert_eq!(extract_title(&content), Some("padded".to_string()));
    let content = note_content("2024-01-15T10:30:00.123Z", "one\ntwo");
    assert_eq!(extract_title(&content), Some("one".to_string()));
    let content = note_content("2024-01-15T10:30:00.123Z", "\n# other");
    assert_eq!(extract_title(&content), Some("".to_string()));
}
