use claude_cli::text::{
    chars_of, contains, contains_ignoring_case, fold_case_char, fold_chars, is_whitespace_char,
    line_end, matches_at, trim_bounds, trimmed,
};

fn chars(s: &str) -> Vec<char> {
    s.chars().collect()
}

#[test]
fn chars_of_keeps_every_character_in_order() {
    assert_eq!(chars_of(""), Vec::<char>::new());
    assert_eq!(chars_of("abc"), vec!['a', 'b', 'c']);
    assert_eq!(chars_of("é\u{3000}𝄞\n"), vec!['é', '\u{3000}', '𝄞', '\n']);
}

#[test]
fn whitespace_is_what_std_calls_whitespace() {
    let mut code: u32 = 0;
    let mut seen: u32 = 0;
    while code <= 0x10FFFF {
        if let Some(c) = char::from_u32(code) {
            assert_eq!(is_whitespace_char(c), c.is_whitespace(), "U+{:04X}", code);
            if is_whitespace_char(c) {
                seen += 1;
            }
        }
        code += 1;
    }
    assert_eq!(seen, 25);
}

#[test]
fn whitespace_named_characters() {
    for c in ['\t', '\n', '\u{b}', '\u{c}', '\r', ' ', '\u{85}', '\u{a0}', '\u{2028}', '\u{3000}'] {
        assert!(is_whitespace_char(c));
    }
    for c in ['a', '0', '\u{8}', '\u{e}', '\u{1f}', '\u{200b}', '\u{feff}', '@'] {
        assert!(!is_whitespace_char(c));
    }
}

#[test]
fn fold_case_is_ascii_lowercase() {
    let mut code: u32 = 0;
    while code <= 0x10FFFF {
        if let Some(c) = char::from_u32(code) {
            assert_eq!(fold_case_char(c), c.to_ascii_lowercase(), "U+{:04X}", code);
        }
        code += 1;
    }
    assert_eq!(fold_case_char('A'), 'a');
    assert_eq!(fold_case_char('Z'), 'z');
    assert_eq!(fold_case_char('@'), '@');
    assert_eq!(fold_case_char('['), '[');
    assert_eq!(fold_case_char('É'), 'É');
    assert_eq!(fold_case_char('\u{212a}'), '\u{212a}');
}

#[test]
fn fold_chars_folds_each_character() {
    assert_eq!(fold_chars(&chars("Not Logged IN")), chars("not logged in"));
    assert_eq!(fold_chars(&chars("")), chars(""));
    assert_eq!(fold_chars(&chars("ÀB@z")), chars("Àb@z"));
}

#[test]
fn trimmed_agrees_with_std_trim() {
    let samples = [
        "",
        " ",
        "\n",
        "4\n",
        "  4  ",
        "\t\r\n partial answer \u{a0}\u{3000}",
        "no edges",
        " inner  space kept ",
        "\u{2003}em\u{2003}",
        "\u{200b}zero width is no white space\u{200b}",
        "\u{85}next line\u{85}",
        "\u{1680}ogham\u{205f}",
        "line one\nline two\n\n",
        "   \t   ",
        "é",
        " 𝄞 ",
    ];
    for s in samples {
        assert_eq!(trimmed(s), s.trim(), "{:?}", s);
    }
}

#[test]
fn trimmed_exact_values() {
    assert_eq!(trimmed("4\n"), "4");
    assert_eq!(trimmed("  rate limited\n"), "rate limited");
    assert_eq!(trimmed(" \n\t"), "");
    assert_eq!(trimmed(""), "");
    assert_eq!(trimmed("a b"), "a b");
}

#[test]
fn trimming_twice_changes_nothing() {
    for s in ["  a b  ", "\n\n", "x", " \u{3000}y z\t"] {
        let once = trimmed(s);
        assert_eq!(trimmed(&once), once);
    }
}

#[test]
fn trim_bounds_cut_out_the_trimmed_text() {
    assert_eq!(trim_bounds(&chars("  ab \n")), (2, 4));
    assert_eq!(trim_bounds(&chars("ab")), (0, 2));
    assert_eq!(trim_bounds(&chars("")), (0, 0));
    assert_eq!(trim_bounds(&chars("   ")), (3, 3));
    assert_eq!(trim_bounds(&chars(" a ")), (1, 2));
    assert_eq!(trim_bounds(&chars("é \u{3000}")), (0, 1));
}

#[test]
fn matches_at_compares_in_place() {
    let text = chars("hello world");
    assert!(matches_at(&text, &chars("hello"), 0));
    assert!(matches_at(&text, &chars("world"), 6));
    assert!(!matches_at(&text, &chars("world"), 5));
    assert!(matches_at(&text, &chars(""), 11));
    assert!(matches_at(&text, &chars("hello world"), 0));
}

#[test]
fn contains_finds_substrings() {
    let text = chars("Logged in as user@example.com");
    assert!(contains(&text, &chars("@")));
    assert!(contains(&text, &chars("Logged")));
    assert!(contains(&text, &chars(".com")));
    assert!(contains(&text, &chars("")));
    assert!(contains(&text, &text));
    assert!(!contains(&text, &chars("logged")));
    assert!(!contains(&text, &chars("account")));
    assert!(!contains(&text, &chars("Logged in as user@example.com!")));
    assert!(!contains(&chars(""), &chars("a")));
    assert!(contains(&chars(""), &chars("")));
    assert!(contains(&chars("aab"), &chars("ab")));
    assert!(contains(&chars("aaab"), &chars("aab")));
    assert!(!contains(&chars("abab"), &chars("abb")));
}

#[test]
fn contains_agrees_with_std_contains() {
    let texts = ["", "a", "ab", "aab", "abab", "not logged in", "xxnot logged inxx", "naccount"];
    let pats = ["", "a", "b", "ab", "ba", "aab", "abb", "not logged in", "account", "nacc"];
    for t in texts {
        for p in pats {
            assert_eq!(contains(&chars(t), &chars(p)), t.contains(p), "{:?} in {:?}", p, t);
        }
    }
}

#[test]
fn contains_ignoring_case_disregards_ascii_case() {
    let pat = chars("not logged in");
    assert!(contains_ignoring_case(&chars("Not logged in."), &pat));
    assert!(contains_ignoring_case(&chars("ERROR: NOT LOGGED IN"), &pat));
    assert!(contains_ignoring_case(&chars("nOt LoGgEd In"), &pat));
    assert!(contains_ignoring_case(&chars("not logged in"), &chars("NOT LOGGED IN")));
    assert!(!contains_ignoring_case(&chars("not  logged in"), &pat));
    assert!(!contains_ignoring_case(&chars("logged in"), &pat));
    assert!(!contains_ignoring_case(&chars(""), &pat));
    assert!(contains_ignoring_case(&chars("x"), &chars("")));
}

#[test]
fn contains_ignoring_case_leaves_other_letters_alone() {
    assert!(!contains_ignoring_case(&chars("É"), &chars("é")));
    assert!(contains_ignoring_case(&chars("École"), &chars("ÉCOLE")));
    // The Kelvin sign is no `k`.
    assert!(!contains_ignoring_case(&chars("\u{212a}"), &chars("k")));
}

#[test]
fn line_end_stops_at_the_next_line_feed() {
    let text = chars("ab\ncd\n\nef");
    assert_eq!(line_end(&text, 0), 2);
    assert_eq!(line_end(&text, 1), 2);
    assert_eq!(line_end(&text, 2), 2);
    assert_eq!(line_end(&text, 3), 5);
    assert_eq!(line_end(&text, 6), 6);
    assert_eq!(line_end(&text, 7), 9);
    assert_eq!(line_end(&text, 9), 9);
    assert_eq!(line_end(&chars(""), 0), 0);
    assert_eq!(line_end(&chars("a\r\nb"), 0), 2);
}
