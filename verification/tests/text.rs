use loudnorm::text::{eq_ignore_ascii_case, is_whitespace, to_ascii_lower, trim};

#[test]
fn whitespace_agrees_with_the_standard_library_on_every_character() {
    let mut n: u32 = 0;
    while n <= 0x10FFFF {
        if let Some(c) = char::from_u32(n) {
            assert_eq!(is_whitespace(c), c.is_whitespace(), "U+{:04X}", n);
        }
        n += 1;
    }
}

#[test]
fn ascii_lower_agrees_with_the_standard_library_on_every_character() {
    let mut n: u32 = 0;
    while n <= 0x10FFFF {
        if let Some(c) = char::from_u32(n) {
            assert_eq!(to_ascii_lower(c), c.to_ascii_lowercase(), "U+{:04X}", n);
        }
        n += 1;
    }
}

#[test]
fn trim_removes_the_white_space_around_a_text() {
    assert_eq!(trim("  -14 \n"), "-14");
    assert_eq!(trim("\t\r\n"), "");
    assert_eq!(trim(""), "");
    assert_eq!(trim("a b"), "a b");
    assert_eq!(trim("\u{3000}x\u{A0}"), "x");
    assert_eq!(trim(" é "), "é");
}

#[test]
fn trim_agrees_with_the_standard_library() {
    let samples = [
        "", " ", "\n", "y\n", "  yes  ", "\r\n", " a  b ", "\u{2003}wide\u{2003}", "no trailing",
        "\u{85}next line\u{85}", "\u{200B}zero width\u{200B}", "\u{FEFF}bom",
    ];
    for s in samples {
        assert_eq!(trim(s), s.trim(), "{:?}", s);
    }
}

#[test]
fn texts_compare_without_regard_to_ascii_case() {
    assert!(eq_ignore_ascii_case("mp3", "MP3"));
    assert!(eq_ignore_ascii_case("Mp3", "mP3"));
    assert!(!eq_ignore_ascii_case("mp3", "mp4"));
    assert!(!eq_ignore_ascii_case("mp3", "mp3 "));
    assert!(!eq_ignore_ascii_case("é", "É"));
}
