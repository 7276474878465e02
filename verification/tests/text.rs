use sync_lyrics::markup::artist_markup;
use sync_lyrics::markup::escape_markup;
use sync_lyrics::markup::lyrics_markup;
use sync_lyrics::markup::not_found_text;
use sync_lyrics::markup::title_markup;
use sync_lyrics::text::chars_of;
use sync_lyrics::text::contains_char;
use sync_lyrics::text::decimal_chars;
use sync_lyrics::text::digit_char;
use sync_lyrics::text::is_blank_chars;
use sync_lyrics::text::is_whitespace;
use sync_lyrics::text::join_chars;
use sync_lyrics::text::push_all;
use sync_lyrics::text::replace_chars;
use sync_lyrics::text::string_of;
use sync_lyrics::text::trim_chars;

fn chars(s: &str) -> Vec<char> {
    s.chars().collect()
}

#[test]
fn white_space_is_what_unicode_says() {
    let mut count = 0;
    for code in 0..=0x10FFFFu32 {
        if let Some(c) = char::from_u32(code) {
            assert_eq!(is_whitespace(c), c.is_whitespace(), "U+{:04X}", code);
            if is_whitespace(c) {
                count += 1;
            }
        }
    }
    assert_eq!(count, 25);
}

#[test]
fn strings_and_characters_convert_both_ways() {
    for s in ["", "a", "Fear Inoculum", "été \u{3000}日本語 🎵"] {
        assert_eq!(chars_of(s), chars(s));
        assert_eq!(string_of(&chars(s)), s);
    }
}

#[test]
fn trim_removes_white_space_at_both_ends() {
    let samples = [
        "",
        " ",
        "\n\t \r",
        "a",
        "  a",
        "a  ",
        " \n a b \t c \u{a0}\u{3000}",
        "\u{2003}x\u{2003}y\u{2003}",
        "no space",
        "inner  space\n",
    ];
    for s in samples {
        assert_eq!(string_of(&trim_chars(&chars(s))), s.trim(), "{:?}", s);
    }
    assert_eq!(string_of(&trim_chars(&chars("  line one \n"))), "line one");
}

#[test]
fn blank_means_white_space_only() {
    assert!(is_blank_chars(&chars("")));
    assert!(is_blank_chars(&chars(" \n\t\u{a0}")));
    assert!(!is_blank_chars(&chars(" x ")));
    assert!(!is_blank_chars(&chars("\u{200b}")));
}

#[test]
fn contains_finds_a_character() {
    assert!(contains_char(&chars("a\nb"), '\n'));
    assert!(contains_char(&chars("\n"), '\n'));
    assert!(!contains_char(&chars("ab"), '\n'));
    assert!(!contains_char(&chars(""), '\n'));
}

#[test]
fn replace_puts_text_for_a_character() {
    let samples = ["", "[", "a[b", "[[", "no bracket", "[Verse 1]\nline[x]"];
    for s in samples {
        assert_eq!(string_of(&replace_chars(&chars(s), '[', &chars("\n["))), s.replace("[", "\n["));
    }
    assert_eq!(string_of(&replace_chars(&chars("a[b"), '[', &chars(""))), "ab");
    assert_eq!(string_of(&replace_chars(&chars("a&b"), '&', &chars("&amp;"))), "a&amp;b");
}

#[test]
fn join_puts_the_separator_between_lines() {
    let none: Vec<Vec<char>> = Vec::new();
    assert_eq!(string_of(&join_chars(&none, &chars("\n"))), "");
    assert_eq!(string_of(&join_chars(&vec![chars("one")], &chars("\n"))), "one");
    assert_eq!(
        string_of(&join_chars(&vec![chars("one"), chars(""), chars("three")], &chars("\n"))),
        "one\n\nthree"
    );
    assert_eq!(string_of(&join_chars(&vec![chars("a"), chars("b")], &chars(", "))), "a, b");
    assert_eq!(string_of(&join_chars(&vec![chars("a"), chars("b")], &chars(""))), "ab");
}

#[test]
fn push_all_appends() {
    let mut out = chars("ab");
    push_all(&mut out, &chars("cd"));
    assert_eq!(out, chars("abcd"));
    push_all(&mut out, &chars(""));
    assert_eq!(out, chars("abcd"));
}

#[test]
fn decimal_digits() {
    for n in [0u64, 1, 9, 10, 11, 99, 100, 101, 721878, 4294967295, u64::MAX] {
        assert_eq!(string_of(&decimal_chars(n)), n.to_string());
    }
    assert_eq!(string_of(&decimal_chars(3039923)), "3039923");
    for d in 0..10u8 {
        assert_eq!(digit_char(d), char::from(b'0' + d));
    }
}

#[test]
fn markup_escapes_ampersands() {
    assert_eq!(escape_markup("Simon & Garfunkel"), "Simon &amp; Garfunkel");
    assert_eq!(escape_markup("&&"), "&amp;&amp;");
    assert_eq!(escape_markup("&amp;"), "&amp;amp;");
    assert_eq!(escape_markup("<b>"), "<b>");
    assert_eq!(escape_markup(""), "");
    for s in ["a & b", "plain", "&", "R&B & Soul"] {
        assert_eq!(escape_markup(s), s.replace("&", "&amp;"));
    }
}

#[test]
fn markup_of_title_artist_and_lyrics() {
    assert_eq!(title_markup("Track A"), "<span size=\"xx-large\">Track A</span>");
    assert_eq!(title_markup("A & B"), "<span size=\"xx-large\">A &amp; B</span>");
    assert_eq!(artist_markup("Artist A"), "<span size=\"x-large\" weight=\"bold\">Artist A</span>");
    assert_eq!(lyrics_markup("la la la\nla"), "<span size=\"large\">la la la\nla</span>");
}

#[test]
fn not_found_line() {
    assert_eq!(not_found_text("Track B", "Artist B"), "Track B - Artist B could not be found");
}
