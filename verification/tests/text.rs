use voxtype_systray::text::{
    chars_of, contains, is_whitespace, lines, same_text, strip_prefix, trim,
};

const SAMPLES: &[&str] = &[
    "",
    " ",
    "\n",
    "\r\n",
    "a",
    " a ",
    "\u{3000}é\u{85}",
    "a\nb",
    "a\r\nb\r\n",
    "\n\na\r",
    "a\r\r\n\nb\n",
    "no meeting",
    "there is no meeting here",
    "nno meetinng",
    "x\u{a0}y\u{200b}",
];

#[test]
fn white_space_is_what_the_standard_library_says() {
    for n in 0..=0x10ffffu32 {
        if let Some(c) = char::from_u32(n) {
            assert_eq!(is_whitespace(c), c.is_whitespace(), "{n:x}");
        }
    }
}

#[test]
fn trimming_is_what_the_standard_library_does() {
    for s in SAMPLES {
        assert_eq!(trim(s), s.trim());
    }
}

#[test]
fn lines_are_what_the_standard_library_gives() {
    for s in SAMPLES {
        assert_eq!(lines(s), s.lines().collect::<Vec<_>>());
    }
}

#[test]
fn searching_is_what_the_standard_library_does() {
    for hay in SAMPLES {
        for needle in SAMPLES {
            assert_eq!(contains(hay, needle), hay.contains(needle));
            assert_eq!(strip_prefix(hay, needle), hay.strip_prefix(needle));
            assert_eq!(same_text(hay, needle), hay == needle);
        }
    }
}

#[test]
fn characters_of_a_string() {
    assert_eq!(chars_of("aé🎙"), vec!['a', 'é', '🎙']);
}
