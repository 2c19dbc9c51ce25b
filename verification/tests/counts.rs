use findr::counts::{count, is_space_char, FileInfo};

#[test]
fn test_count() {
    // The line must end "half.\r\n": its 46 visible characters plus the
    // two line-ending bytes give the expected 48. A variant of this
    // lyric without the final period is one byte short of these counts
    // and cannot satisfy them.
    let text = "I don't want the world. I just want your half.\r\n";
    let info = count(text);
    let expected = FileInfo { num_lines: 1, num_words: 10, num_chars: 48, num_bytes: 48 };
    assert_eq!(info, expected);
}

#[test]
fn count_empty_text() {
    let info = count("");
    let expected = FileInfo { num_lines: 0, num_words: 0, num_bytes: 0, num_chars: 0 };
    assert_eq!(info, expected);
}

#[test]
fn count_final_line_without_newline() {
    let info = count("abc");
    let expected = FileInfo { num_lines: 1, num_words: 1, num_bytes: 3, num_chars: 3 };
    assert_eq!(info, expected);
}

#[test]
fn count_two_lines() {
    let info = count("one two\nthree\n");
    let expected = FileInfo { num_lines: 2, num_words: 3, num_bytes: 14, num_chars: 14 };
    assert_eq!(info, expected);
}

#[test]
fn count_runs_of_spaces() {
    let info = count("  a\t\tb  \n");
    let expected = FileInfo { num_lines: 1, num_words: 2, num_bytes: 9, num_chars: 9 };
    assert_eq!(info, expected);
}

#[test]
fn count_words_split_by_newline() {
    let info = count("a\nb");
    let expected = FileInfo { num_lines: 2, num_words: 2, num_bytes: 3, num_chars: 3 };
    assert_eq!(info, expected);
}

#[test]
fn count_multibyte_characters() {
    // 'é' takes two bytes; the character count repeats the byte count.
    let info = count("héllo\n");
    let expected = FileInfo { num_lines: 1, num_words: 1, num_bytes: 7, num_chars: 7 };
    assert_eq!(info, expected);
}

#[test]
fn count_unicode_space_separates_words() {
    // U+00A0 (no-break space) has the white-space property.
    let info = count("a\u{00A0}b");
    let expected = FileInfo { num_lines: 1, num_words: 2, num_bytes: 4, num_chars: 4 };
    assert_eq!(info, expected);
}

#[test]
fn space_property_of_single_characters() {
    assert!(is_space_char(' '));
    assert!(is_space_char('\t'));
    assert!(is_space_char('\n'));
    assert!(is_space_char('\u{2003}'));
    assert!(!is_space_char('a'));
    assert!(!is_space_char('0'));
}
