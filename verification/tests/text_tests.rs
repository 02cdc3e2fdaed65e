// Tests for the helpers on text, each held against what std does.
use pantryman_linux::text::{
    contains, holds_text, is_blank, is_whitespace, join, prefixed, replace_blanks, same_text,
    split, split_whitespace, text_le, to_chars, trim,
};

fn samples() -> Vec<&'static str> {
    vec![
        "",
        " ",
        "   ",
        "a",
        " a",
        "a ",
        "  a b  ",
        "\tpotato 2 kg\n",
        "\u{a0}x\u{2003}",
        "\u{3000}",
        "one,two",
        ",",
        ",,",
        "a, b,,c ",
        "a,",
        ",a",
        "line one\nline two\r\n\nlast",
        "\n",
        "Ünïcödé  wörds\u{2028}here",
        "🍕 pizza 🍕",
        "x\ry",
    ]
}

fn owned(parts: Vec<&str>) -> Vec<String> {
    parts.into_iter().map(|p| p.to_string()).collect()
}

#[test]
fn trim_agrees_with_std() {
    for s in samples() {
        assert_eq!(trim(s), s.trim(), "trim of {:?}", s);
    }
    assert_eq!(trim("  a b  "), "a b");
    assert_eq!(trim("\u{2003}x\u{a0}"), "x");
}

#[test]
fn is_blank_agrees_with_std() {
    for s in samples() {
        assert_eq!(is_blank(s), s.trim().is_empty(), "blank {:?}", s);
    }
    assert!(is_blank(""));
    assert!(is_blank(" \t\n\u{3000}"));
    assert!(!is_blank(" . "));
}

#[test]
fn split_agrees_with_std() {
    for s in samples() {
        assert_eq!(split(s, ','), owned(s.split(',').collect()), "split of {:?}", s);
        assert_eq!(split(s, '\n'), owned(s.split('\n').collect()), "lines of {:?}", s);
    }
    assert_eq!(split("", ','), vec!["".to_string()]);
    assert_eq!(split("a,", ','), vec!["a".to_string(), "".to_string()]);
    assert_eq!(
        split("a,b,,c", ','),
        vec!["a".to_string(), "b".to_string(), "".to_string(), "c".to_string()]
    );
}

#[test]
fn split_whitespace_agrees_with_std() {
    for s in samples() {
        assert_eq!(
            split_whitespace(s),
            owned(s.split_whitespace().collect()),
            "words of {:?}",
            s
        );
    }
    assert_eq!(split_whitespace("   "), Vec::<String>::new());
    assert_eq!(
        split_whitespace("  potato\t2  kg "),
        vec!["potato".to_string(), "2".to_string(), "kg".to_string()]
    );
    assert_eq!(
        split_whitespace("a\u{2003}b"),
        vec!["a".to_string(), "b".to_string()]
    );
}

#[test]
fn join_agrees_with_std() {
    let lists: Vec<Vec<&str>> = vec![
        vec![],
        vec![""],
        vec!["a"],
        vec!["a", "b"],
        vec!["a", "", "c"],
        vec!["quick", "vegan", "été"],
    ];
    for list in lists {
        let parts = owned(list.clone());
        for sep in [", ", "\n", "", "--"] {
            assert_eq!(join(&parts, sep), list.join(sep));
        }
    }
    assert_eq!(join(&owned(vec!["a", "b", "c"]), ", "), "a, b, c");
}

#[test]
fn contains_agrees_with_std() {
    let hays = ["", "a", "umami", "Umami paste", "aaa", "abcabc", "été", "🍕x🍕"];
    let needles = ["", "a", "um", "mi", "umami!", "paste", "aa", "aaaa", "cab", "é", "x🍕", "z"];
    for hay in hays {
        for needle in needles {
            assert_eq!(
                contains(hay, needle),
                hay.contains(needle),
                "{:?} in {:?}",
                needle,
                hay
            );
        }
    }
    assert!(contains("umami", "mam"));
    assert!(!contains("umami", "mum"));
    assert!(contains("", ""));
}

#[test]
fn text_le_is_the_order_of_strings() {
    let texts = [
        "", "a", "A", "aa", "ab", "b", "B", "Lasagna", "Soup", "lasagna", "été", "z", "zz", "é",
        "🍕", "\u{ffff}", "\u{10000}", "a🍕", "a\u{ffff}",
    ];
    for a in texts {
        for b in texts {
            assert_eq!(text_le(a, b), a <= b, "{:?} <= {:?}", a, b);
        }
    }
    assert!(text_le("", ""));
    assert!(text_le("B", "a"));
    assert!(!text_le("ab", "a"));
    assert!(text_le("a", "ab"));
}

#[test]
fn replace_blanks_agrees_with_std() {
    for s in samples() {
        assert_eq!(replace_blanks(s), s.replace(' ', "_"), "blanks of {:?}", s);
    }
    assert_eq!(replace_blanks("sea salt flakes"), "sea_salt_flakes");
    assert_eq!(replace_blanks(" a  b "), "_a__b_");
    assert_eq!(replace_blanks("tab\there"), "tab\there");
}

#[test]
fn to_chars_lists_the_characters() {
    for s in samples() {
        assert_eq!(to_chars(s), s.chars().collect::<Vec<char>>());
    }
    assert_eq!(to_chars("aé🍕"), vec!['a', 'é', '🍕']);
}

#[test]
fn same_text_and_prefixed() {
    assert!(same_text("", ""));
    assert!(same_text("delete", "delete"));
    assert!(!same_text("delete", "Delete"));
    assert!(!same_text("a", "ab"));
    assert_eq!(prefixed("Error: ", "boom"), "Error: boom");
    assert_eq!(prefixed("", ""), "");
}

#[test]
fn holds_text_compares_by_content() {
    assert!(holds_text(&Some("Lasagna".to_string()), "Lasagna"));
    assert!(!holds_text(&Some("Lasagna".to_string()), "lasagna"));
    assert!(!holds_text(&None, "Lasagna"));
    assert!(!holds_text(&None, ""));
    assert!(holds_text(&Some(String::new()), ""));
}

#[test]
fn white_space_is_what_std_calls_white_space() {
    let mut count = 0;
    for code in 0..=0x10ffffu32 {
        if let Some(c) = char::from_u32(code) {
            assert_eq!(is_whitespace(c), c.is_whitespace(), "character {:#x}", code);
            if is_whitespace(c) {
                count += 1;
            }
        }
    }
    assert_eq!(count, 25);
    for c in [' ', '\t', '\n', '\r', '\u{b}', '\u{c}', '\u{85}', '\u{a0}', '\u{3000}'] {
        assert!(is_whitespace(c));
    }
    for c in ['a', '0', '_', '\u{0}', '\u{8}', '\u{e}', '\u{180e}', '\u{200b}', '\u{feff}'] {
        assert!(!is_whitespace(c));
    }
}
