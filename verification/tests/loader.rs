use tiny_cpu::loader::{is_space, parse_program, parse_token, LoadError, ADDRESS_SPACE};

fn token(text: &str) -> Option<u8> {
    parse_token(&text.chars().collect::<Vec<char>>())
}

#[test]
fn one_line_of_bytes() {
    assert_eq!(parse_program("00 10 55 F0"), Ok(vec![0x00, 0x10, 0x55, 0xF0]));
}

#[test]
fn empty_text_is_an_empty_program() {
    assert_eq!(parse_program(""), Ok(vec![]));
}

#[test]
fn lines_follow_each_other_in_order() {
    assert_eq!(parse_program("00 10\n55\nF0 01"), Ok(vec![0x00, 0x10, 0x55, 0xF0, 0x01]));
}

#[test]
fn final_line_feed_adds_no_line() {
    assert_eq!(parse_program("00 10\n55 F0\n"), Ok(vec![0x00, 0x10, 0x55, 0xF0]));
    assert_eq!(parse_program("7F\n"), Ok(vec![0x7F]));
}

#[test]
fn carriage_returns_are_stripped_with_the_line_ends() {
    assert_eq!(parse_program("00 10\r\n55 F0\r\n"), Ok(vec![0x00, 0x10, 0x55, 0xF0]));
    assert_eq!(parse_program("00 10 # load\r\nF0"), Ok(vec![0x00, 0x10, 0xF0]));
}

#[test]
fn comments_run_to_the_end_of_the_line() {
    assert_eq!(
        parse_program("00 # no operation\n10 55 # R0 <- 0x55 # twice\nF0#halt"),
        Ok(vec![0x00, 0x10, 0x55, 0xF0])
    );
    assert_eq!(parse_program("AB # \u{e9}t\u{e9} \u{4e2d}"), Ok(vec![0xAB]));
}

#[test]
fn white_space_around_the_tokens_is_stripped() {
    assert_eq!(parse_program("  00 10  "), Ok(vec![0x00, 0x10]));
    assert_eq!(parse_program("\t00 10\t# tabbed"), Ok(vec![0x00, 0x10]));
    assert_eq!(parse_program("\u{a0}00 10\u{3000}"), Ok(vec![0x00, 0x10]));
    assert_eq!(parse_program("\u{2003}FF\u{85}\n\u{b}01\u{c}"), Ok(vec![0xFF, 0x01]));
}

#[test]
fn digits_of_either_case_are_read() {
    assert_eq!(parse_program("ab Cd eF 9a"), Ok(vec![0xAB, 0xCD, 0xEF, 0x9A]));
}

#[test]
fn every_byte_value_is_read() {
    for b in 0..=255u8 {
        assert_eq!(parse_program(&format!("{:02X}", b)), Ok(vec![b]));
        assert_eq!(parse_program(&format!("{:02x}", b)), Ok(vec![b]));
    }
}

#[test]
fn blank_line_is_malformed() {
    assert_eq!(parse_program("00\n\nF0"), Err(LoadError::MalformedToken));
    assert_eq!(parse_program("\n"), Err(LoadError::MalformedToken));
    assert_eq!(parse_program("00\n\n"), Err(LoadError::MalformedToken));
    assert_eq!(parse_program("   "), Err(LoadError::MalformedToken));
}

#[test]
fn comment_only_line_is_malformed() {
    assert_eq!(parse_program("# just a comment\n00"), Err(LoadError::MalformedToken));
    assert_eq!(parse_program("00\n  # indented comment"), Err(LoadError::MalformedToken));
}

#[test]
fn two_spaces_in_a_row_are_malformed() {
    assert_eq!(parse_program("00  10"), Err(LoadError::MalformedToken));
}

#[test]
fn other_separators_are_malformed() {
    assert_eq!(parse_program("00\t10"), Err(LoadError::MalformedToken));
    assert_eq!(parse_program("00,10"), Err(LoadError::MalformedToken));
    assert_eq!(parse_program("00\u{a0}10"), Err(LoadError::MalformedToken));
    assert_eq!(parse_program("00\r10"), Err(LoadError::MalformedToken));
}

#[test]
fn tokens_that_are_not_two_digits_are_malformed() {
    assert_eq!(parse_program("0"), Err(LoadError::MalformedToken));
    assert_eq!(parse_program("000"), Err(LoadError::MalformedToken));
    assert_eq!(parse_program("0x"), Err(LoadError::MalformedToken));
    assert_eq!(parse_program("GG"), Err(LoadError::MalformedToken));
    assert_eq!(parse_program("+1"), Err(LoadError::MalformedToken));
    assert_eq!(parse_program("-1"), Err(LoadError::MalformedToken));
    assert_eq!(parse_program("00 1g F0"), Err(LoadError::MalformedToken));
    assert_eq!(parse_program("00 10\n55 F"), Err(LoadError::MalformedToken));
    assert_eq!(parse_program("\u{ff11}\u{ff12}"), Err(LoadError::MalformedToken));
}

#[test]
fn parse_token_reads_two_digits() {
    assert_eq!(token("00"), Some(0x00));
    assert_eq!(token("0f"), Some(0x0F));
    assert_eq!(token("F0"), Some(0xF0));
    assert_eq!(token("a5"), Some(0xA5));
    assert_eq!(token("Ff"), Some(0xFF));
    assert_eq!(token(""), None);
    assert_eq!(token("f"), None);
    assert_eq!(token("fff"), None);
    assert_eq!(token("g0"), None);
    assert_eq!(token("0G"), None);
    assert_eq!(token("@A"), None);
    assert_eq!(token("`a"), None);
    assert_eq!(token("/0"), None);
    assert_eq!(token(":0"), None);
}

#[test]
fn is_space_agrees_with_the_standard_library() {
    for n in 0..=0x3100u32 {
        if let Some(c) = char::from_u32(n) {
            assert_eq!(is_space(c), c.is_whitespace(), "U+{:04X}", n);
        }
    }
    assert!(!is_space('\u{feff}'));
    assert!(!is_space('\u{200b}'));
    assert!(!is_space('\u{10ffff}'));
}

#[test]
fn program_as_long_as_the_address_space_is_read() {
    assert_eq!(ADDRESS_SPACE, 65536);
    let text = vec!["A5"; ADDRESS_SPACE].join(" ");
    let bytes = parse_program(&text).unwrap();
    assert_eq!(bytes.len(), ADDRESS_SPACE);
    assert!(bytes.iter().all(|b| *b == 0xA5));
}

#[test]
fn program_longer_than_the_address_space_is_too_long() {
    let text = vec!["A5"; ADDRESS_SPACE + 1].join("\n");
    assert_eq!(parse_program(&text), Err(LoadError::TooLong));
}

#[test]
fn malformed_token_is_reported_even_in_a_long_program() {
    let mut text = vec!["A5"; ADDRESS_SPACE + 1].join(" ");
    text.push_str(" ZZ");
    assert_eq!(parse_program(&text), Err(LoadError::MalformedToken));
}
