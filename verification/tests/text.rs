use rom_browser_scripts::codec::{decode_chars, encode_chars, url_decode, url_encode};
use rom_browser_scripts::text::{
    chars_of, followed_by, has_infix, has_prefix, has_suffix, join_parts, matches_at, replace_all,
    same_chars, split_fields, split_lines, split_words, squeeze_spaces, string_of, to_lower, trim,
    trim_trailing,
};

const SAMPLES: [&str; 24] = [
    "",
    " ",
    "a",
    "abc",
    "aaa",
    "aaaa",
    "abcabc",
    "  two  spaces  ",
    "tab\tand\nnewline\r\n",
    "\u{a0}no-break\u{a0}space\u{a0}",
    "\u{2003}em\u{3000}ideographic\u{85}next",
    "Halo (USA).zip",
    "Halo%20%28USA%29.zip",
    "%2%2020%2B%2b",
    "a.b.c",
    "..a..",
    "line1\nline2\r\nline3\rline4\n\n",
    "ÄÖÜ ẞ İstanbul ΣΑΣ",
    "日本語 テキスト",
    "?C=N;O=D",
    "../",
    "http://example.org/",
    "x\u{0}y",
    "🎮 game 🎮",
];

const PATTERNS: [&str; 12] = ["", "a", "aa", "abc", " ", "  ", ".", "..", "%20", "\n", "zip", "🎮"];

fn text(v: &[char]) -> String {
    v.iter().collect()
}

fn texts(v: &[Vec<char>]) -> Vec<String> {
    v.iter().map(|w| text(w)).collect()
}

#[test]
fn characters_go_in_and_out_unchanged() {
    for s in SAMPLES {
        let chars = chars_of(s);
        assert_eq!(chars, s.chars().collect::<Vec<char>>());
        assert_eq!(string_of(&chars), s);
    }
    assert_eq!(followed_by("ab", "cd"), "abcd");
    assert_eq!(followed_by("", ""), "");
}

#[test]
fn searching_agrees_with_the_standard_functions() {
    for s in SAMPLES {
        for p in PATTERNS {
            let (hay, pat) = (chars_of(s), chars_of(p));
            assert_eq!(has_infix(&hay, &pat), s.contains(p), "{:?} contains {:?}", s, p);
            assert_eq!(has_prefix(&hay, &pat), s.starts_with(p), "{:?} starts with {:?}", s, p);
            assert_eq!(has_suffix(&hay, &pat), s.ends_with(p), "{:?} ends with {:?}", s, p);
            assert_eq!(same_chars(&hay, &pat), s == p);
        }
    }
}

#[test]
fn matching_at_a_position() {
    let hay = chars_of("abcabc");
    assert!(matches_at(&hay, &chars_of("abc"), 0));
    assert!(matches_at(&hay, &chars_of("abc"), 3));
    assert!(!matches_at(&hay, &chars_of("abc"), 1));
    assert!(!matches_at(&hay, &chars_of("abc"), 4));
    assert!(matches_at(&hay, &chars_of(""), 6));
    assert!(!matches_at(&hay, &chars_of(""), 7));
    assert!(!matches_at(&hay, &chars_of("abcabca"), 0));
    assert!(!matches_at(&hay, &chars_of("c"), usize::MAX));
}

#[test]
fn replacing_agrees_with_the_standard_function() {
    for s in SAMPLES {
        for p in PATTERNS {
            if p.is_empty() {
                continue;
            }
            for r in ["", " ", "_", "%20", "aa"] {
                let out = replace_all(&chars_of(s), &chars_of(p), &chars_of(r));
                assert_eq!(text(&out), s.replace(p, r), "{:?} replace {:?} by {:?}", s, p, r);
            }
        }
    }
}

#[test]
fn replacing_nothing_changes_nothing() {
    for s in SAMPLES {
        assert_eq!(text(&replace_all(&chars_of(s), &chars_of(""), &chars_of("x"))), s);
    }
}

#[test]
fn trimming_agrees_with_the_standard_functions() {
    for s in SAMPLES {
        assert_eq!(text(&trim(&chars_of(s))), s.trim(), "trim {:?}", s);
        assert_eq!(text(&trim_trailing(&chars_of(s), '/')), s.trim_end_matches('/'));
        assert_eq!(text(&trim_trailing(&chars_of(s), ' ')), s.trim_end_matches(' '));
    }
    assert_eq!(text(&trim_trailing(&chars_of("a///"), '/')), "a");
    assert_eq!(text(&trim_trailing(&chars_of("///"), '/')), "");
}

#[test]
fn splitting_agrees_with_the_standard_functions() {
    for s in SAMPLES {
        let chars = chars_of(s);
        assert_eq!(texts(&split_words(&chars)), s.split_whitespace().collect::<Vec<&str>>(), "{:?}", s);
        assert_eq!(texts(&split_lines(&chars)), s.lines().collect::<Vec<&str>>(), "lines {:?}", s);
        assert_eq!(texts(&split_fields(&chars, '.')), s.split('.').collect::<Vec<&str>>(), "{:?}", s);
        assert_eq!(
            text(&squeeze_spaces(&chars)),
            s.split_whitespace().collect::<Vec<&str>>().join(" ")
        );
    }
}

#[test]
fn joining_puts_the_separator_between_parts() {
    let parts: Vec<Vec<char>> = vec![chars_of("a"), chars_of(""), chars_of("bc")];
    assert_eq!(text(&join_parts(&parts, &chars_of(", "))), "a, , bc");
    assert_eq!(text(&join_parts(&parts[..1].to_vec(), &chars_of(", "))), "a");
    assert_eq!(text(&join_parts(&Vec::new(), &chars_of(", "))), "");
}

#[test]
fn lower_case_agrees_with_the_standard_function() {
    for s in SAMPLES {
        assert_eq!(text(&to_lower(&chars_of(s))), s.to_lowercase());
    }
    assert_eq!(text(&to_lower(&chars_of("PlayStation 2 (REDUMP)"))), "playstation 2 (redump)");
}

fn chained_encode(text: &str) -> String {
    text.replace(' ', "%20")
        .replace('(', "%28")
        .replace(')', "%29")
        .replace('+', "%2B")
        .replace('&', "%26")
        .replace('\'', "%27")
        .replace(',', "%2C")
}

fn chained_decode(text: &str) -> String {
    text.replace("%20", " ")
        .replace("%28", "(")
        .replace("%29", ")")
        .replace("%2B", "+")
        .replace("%26", "&")
        .replace("%27", "'")
        .replace("%2C", ",")
}

#[test]
fn codec_agrees_with_replacing_one_character_after_the_other() {
    let more = [
        "%2%20%280", "%%20", "%2%2%2%20", "%27%2C%26%2B%29%28%20", "%252B", "a+b&c'd,e(f)g h",
        "%2B%2", "%", "%%", "%2", "%20%2", "(%28)", "% 20", "%2 0",
    ];
    for s in SAMPLES.iter().chain(more.iter()) {
        assert_eq!(url_encode(s), chained_encode(s), "encode {:?}", s);
        assert_eq!(url_decode(s), chained_decode(s), "decode {:?}", s);
        assert_eq!(text(&encode_chars(&chars_of(s))), chained_encode(s));
        assert_eq!(text(&decode_chars(&chars_of(s))), chained_decode(s));
    }
}

fn listed_as_white_space(c: char) -> bool {
    matches!(
        c,
        '\u{9}'..='\u{d}'
            | ' '
            | '\u{85}'
            | '\u{a0}'
            | '\u{1680}'
            | '\u{2000}'..='\u{200a}'
            | '\u{2028}'
            | '\u{2029}'
            | '\u{202f}'
            | '\u{205f}'
            | '\u{3000}'
    )
}

#[test]
fn white_space_is_the_listed_code_points() {
    let mut count = 0;
    for code in 0..=0x10ffffu32 {
        if let Some(c) = char::from_u32(code) {
            let trimmed_away = trim(&vec![c]).is_empty();
            assert_eq!(trimmed_away, listed_as_white_space(c), "U+{:04X}", code);
            if trimmed_away {
                count += 1;
            }
        }
    }
    assert_eq!(count, 25);
}

#[test]
fn title_words_are_split_at_listed_white_space() {
    let text: Vec<char> = "a\u{a0}b\u{2003}c\u{200b}d\u{180e}e\u{3000}f".chars().collect();
    assert_eq!(texts(&split_words(&text)), vec!["a", "b", "c\u{200b}d\u{180e}e", "f"]);
}
