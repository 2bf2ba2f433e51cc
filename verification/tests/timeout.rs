use ftp_launch::timeout::{ParseTimeoutError, Timeout};
use std::time::Duration;

#[test]
fn omit_sigil() {
    let expected = "5";
    let actual = ftp_launch::timeout::omit_sigil("5m");
    assert_eq!(actual, expected);
}

#[test]
fn can_parse_values() {
    assert_eq!("5m".parse(), Ok(Timeout::Minutes(5)));
    assert_eq!("5s".parse(), Ok(Timeout::Seconds(5)));
    assert_eq!("5".parse(), Ok(Timeout::Seconds(5)));
    assert_eq!("5h".parse(), Ok(Timeout::Hours(5)));
}

#[test]
fn omit_sigil_edges() {
    assert_eq!(ftp_launch::timeout::omit_sigil(""), "");
    assert_eq!(ftp_launch::timeout::omit_sigil("h"), "");
    assert_eq!(ftp_launch::timeout::omit_sigil("12"), "1");
    assert_eq!(ftp_launch::timeout::omit_sigil("5\u{e9}"), "5");
    assert_eq!(ftp_launch::timeout::omit_sigil("\u{1F600}\u{1F600}"), "\u{1F600}");
}

#[test]
fn parse_agrees_with_from_str() {
    for text in ["", " ", "5", "5m", "5x", "abc", "-3h", "+7S", "5h3"] {
        assert_eq!(Timeout::parse(text), text.parse::<Timeout>());
    }
}

#[test]
fn bare_integer_counts_seconds() {
    assert_eq!(Timeout::parse("0"), Ok(Timeout::Seconds(0)));
    assert_eq!(Timeout::parse("90"), Ok(Timeout::Seconds(90)));
    assert_eq!(Timeout::parse("-17"), Ok(Timeout::Seconds(-17)));
    assert_eq!(Timeout::parse("+5"), Ok(Timeout::Seconds(5)));
    assert_eq!(Timeout::parse("007"), Ok(Timeout::Seconds(7)));
    assert_eq!(Timeout::parse("-0"), Ok(Timeout::Seconds(0)));
    assert_eq!(Timeout::parse("2147483647"), Ok(Timeout::Seconds(i32::MAX)));
    assert_eq!(Timeout::parse("-2147483648"), Ok(Timeout::Seconds(i32::MIN)));
}

#[test]
fn bare_integer_round_trips() {
    let samples = [0, 1, -1, 9, 10, 11, 99, 100, 101, -10, 2121, 65535, i32::MAX, i32::MIN, i32::MIN + 1];
    for n in samples {
        let text = format!("{}", n);
        let read = Timeout::parse(&text);
        assert_eq!(read, Ok(Timeout::Seconds(n)));
        assert_eq!(read.unwrap().render(), text);
    }
    for n in -1500..1500 {
        let text = format!("{}", n);
        assert_eq!(Timeout::parse(&text).unwrap().render(), text);
    }
}

#[test]
fn unit_letter_selects_the_unit() {
    let samples = [0, 1, -1, 5, 60, -3600, 123456, i32::MAX, i32::MIN];
    for n in samples {
        assert_eq!(Timeout::parse(&format!("{}h", n)), Ok(Timeout::Hours(n)));
        assert_eq!(Timeout::parse(&format!("{}m", n)), Ok(Timeout::Minutes(n)));
        assert_eq!(Timeout::parse(&format!("{}s", n)), Ok(Timeout::Seconds(n)));
        assert_eq!(Timeout::parse(&format!("{}H", n)), Ok(Timeout::Hours(n)));
        assert_eq!(Timeout::parse(&format!("{}M", n)), Ok(Timeout::Minutes(n)));
        assert_eq!(Timeout::parse(&format!("{}S", n)), Ok(Timeout::Seconds(n)));
    }
    assert_eq!(Timeout::parse("+12m"), Ok(Timeout::Minutes(12)));
    assert_eq!(Timeout::parse("012h"), Ok(Timeout::Hours(12)));
}

#[test]
fn canonical_forms_round_trip() {
    assert_eq!(Timeout::parse("5"), Ok(Timeout::Seconds(5)));
    assert_eq!(Timeout::Seconds(5).render(), "5");
    assert_eq!(Timeout::parse("5m"), Ok(Timeout::Minutes(5)));
    assert_eq!(Timeout::Minutes(5).render(), "5m");
    assert_eq!(Timeout::parse("5h"), Ok(Timeout::Hours(5)));
    assert_eq!(Timeout::Hours(5).render(), "5h");
}

#[test]
fn explicit_seconds_lose_their_letter() {
    assert_eq!(Timeout::parse("5s"), Ok(Timeout::Seconds(5)));
    assert_eq!(Timeout::parse("5s").unwrap().render(), "5");
    assert_eq!(Timeout::parse("5S").unwrap().render(), "5");
    assert_eq!(Timeout::parse("5M").unwrap().render(), "5m");
    assert_eq!(Timeout::parse("+5h").unwrap().render(), "5h");
}

#[test]
fn written_timeouts_read_back() {
    let samples = [0, 1, -1, 42, -42, 1000000, i32::MAX, i32::MIN];
    for n in samples {
        for t in [Timeout::Seconds(n), Timeout::Minutes(n), Timeout::Hours(n)] {
            assert_eq!(Timeout::parse(&t.render()), Ok(t));
        }
    }
}

#[test]
fn render_writes_decimal_digits() {
    assert_eq!(Timeout::Seconds(0).render(), "0");
    assert_eq!(Timeout::Seconds(-7).render(), "-7");
    assert_eq!(Timeout::Minutes(120).render(), "120m");
    assert_eq!(Timeout::Hours(-3).render(), "-3h");
    assert_eq!(Timeout::Seconds(i32::MIN).render(), "-2147483648");
    assert_eq!(Timeout::Hours(i32::MAX).render(), "2147483647h");
}

#[test]
fn blank_text_is_empty() {
    assert_eq!(Timeout::parse(""), Err(ParseTimeoutError::Empty));
    assert_eq!(Timeout::parse("   "), Err(ParseTimeoutError::Empty));
    assert_eq!(Timeout::parse(" "), Err(ParseTimeoutError::Empty));
    assert_eq!(Timeout::parse("\t\n\r"), Err(ParseTimeoutError::Empty));
    assert_eq!(Timeout::parse("\u{a0}\u{3000}\u{2028}"), Err(ParseTimeoutError::Empty));
}

#[test]
fn white_space_is_what_the_standard_library_calls_so() {
    let mut code: u32 = 0;
    while code <= 0x10FFFF {
        if let Some(c) = char::from_u32(code) {
            assert_eq!(ftp_launch::text::white_space(c), c.is_whitespace(), "U+{:04X}", code);
            assert_eq!(ftp_launch::text::ascii_letter(c), c.is_ascii_alphabetic(), "U+{:04X}", code);
        }
        code += 1;
    }
}

#[test]
fn blank_looks_at_every_character() {
    assert!(ftp_launch::text::blank(""));
    assert!(ftp_launch::text::blank(" \t "));
    assert!(!ftp_launch::text::blank("  5"));
    assert!(!ftp_launch::text::blank("5  "));
    assert!(!ftp_launch::text::blank(" \u{200b} "));
}

#[test]
fn unknown_letter_is_a_bad_sigil() {
    assert_eq!(Timeout::parse("5x"), Err(ParseTimeoutError::Sigil(String::from("5x"))));
    assert_eq!(Timeout::parse("-12D"), Err(ParseTimeoutError::Sigil(String::from("-12D"))));
    assert_eq!(Timeout::parse("0z"), Err(ParseTimeoutError::Sigil(String::from("0z"))));
}

fn int_error(text: &str, numeric: &str) -> ParseTimeoutError {
    ParseTimeoutError::Int(String::from(text), numeric.parse::<i32>().unwrap_err())
}

#[test]
fn malformed_numbers_are_bad_integers() {
    assert_eq!(Timeout::parse("abc"), Err(int_error("abc", "ab")));
    assert_eq!(Timeout::parse("5mm"), Err(int_error("5mm", "5m")));
    assert!(matches!(Timeout::parse("abc"), Err(ParseTimeoutError::Int(_, _))));
    assert!(matches!(Timeout::parse("5mm"), Err(ParseTimeoutError::Int(_, _))));
    assert_eq!(Timeout::parse("1.5"), Err(int_error("1.5", "1.5")));
    assert_eq!(Timeout::parse("1_000"), Err(int_error("1_000", "1_000")));
    assert_eq!(Timeout::parse(" 5"), Err(int_error(" 5", " 5")));
    assert_eq!(Timeout::parse("5 "), Err(int_error("5 ", "5 ")));
    assert_eq!(Timeout::parse("-"), Err(int_error("-", "-")));
    assert_eq!(Timeout::parse("--5"), Err(int_error("--5", "--5")));
    assert_eq!(Timeout::parse("\u{663}"), Err(int_error("\u{663}", "\u{663}")));
}

#[test]
fn number_is_checked_before_the_letter() {
    assert_eq!(Timeout::parse("x"), Err(int_error("x", "")));
    assert_eq!(Timeout::parse("m"), Err(int_error("m", "")));
    assert_eq!(Timeout::parse("1.5x"), Err(int_error("1.5x", "1.5")));
    assert_eq!(Timeout::parse("-h"), Err(int_error("-h", "-")));
    assert_eq!(Timeout::parse(" 5m"), Err(int_error(" 5m", " 5")));
}

#[test]
fn out_of_range_numbers_are_bad_integers() {
    assert_eq!(Timeout::parse("2147483648"), Err(int_error("2147483648", "2147483648")));
    assert_eq!(Timeout::parse("-2147483649"), Err(int_error("-2147483649", "-2147483649")));
    assert_eq!(Timeout::parse("99999999999h"), Err(int_error("99999999999h", "99999999999")));
    assert_ne!(Timeout::parse("2147483648"), Err(int_error("2147483648", "x")));
}

#[test]
fn only_the_last_character_can_be_the_sigil() {
    assert_eq!(Timeout::parse("5h3"), Err(int_error("5h3", "5h3")));
    assert_eq!(Timeout::parse("5h "), Err(int_error("5h ", "5h ")));
    assert_eq!(Timeout::parse("h5"), Err(int_error("h5", "h5")));
    assert_eq!(Timeout::parse("5m\u{e9}"), Err(int_error("5m\u{e9}", "5m\u{e9}")));
    assert_eq!(Timeout::parse("5\u{e9}"), Err(int_error("5\u{e9}", "5\u{e9}")));
}

fn scan_from_end(s: &str) -> Result<Timeout, ParseTimeoutError> {
    if s.trim().is_empty() {
        return Err(ParseTimeoutError::Empty);
    }
    let mut letter = None;
    for c in s.chars().rev() {
        if c.is_ascii_alphabetic() {
            letter = Some(c.to_ascii_lowercase());
            break;
        }
    }
    match letter {
        Some(letter) => {
            let mut rest = s.chars();
            rest.next_back();
            match rest.as_str().parse::<i32>() {
                Err(e) => Err(ParseTimeoutError::Int(String::from(s), e)),
                Ok(n) => match letter {
                    'h' => Ok(Timeout::Hours(n)),
                    'm' => Ok(Timeout::Minutes(n)),
                    's' => Ok(Timeout::Seconds(n)),
                    _ => Err(ParseTimeoutError::Sigil(String::from(s))),
                },
            }
        }
        None => match s.parse::<i32>() {
            Ok(n) => Ok(Timeout::Seconds(n)),
            Err(e) => Err(ParseTimeoutError::Int(String::from(s), e)),
        },
    }
}

#[test]
fn scanning_for_a_letter_from_the_end_gives_the_same_answers() {
    let alphabet = ['0', '1', '9', '-', '+', ' ', 'h', 'M', 's', 'x', '\u{e9}', '_'];
    let mut texts = vec![String::new()];
    let mut start = 0;
    for _ in 0..4 {
        let end = texts.len();
        for i in start..end {
            for c in alphabet {
                let mut longer = texts[i].clone();
                longer.push(c);
                texts.push(longer);
            }
        }
        start = end;
    }
    assert_eq!(texts.len(), 1 + 12 + 144 + 1728 + 20736);
    for text in &texts {
        assert_eq!(Timeout::parse(text), scan_from_end(text), "{:?}", text);
    }
    for text in ["99999999999h3", "2147483648 ", "9999999999a5", "-99999999999x1", "2147483647h", "2147483648h"] {
        assert_eq!(Timeout::parse(text), scan_from_end(text), "{:?}", text);
    }
}

#[test]
fn duration_scales_by_the_unit() {
    assert_eq!(Timeout::Minutes(5).duration(), Duration::from_secs(300));
    assert_eq!(Timeout::Hours(1).duration(), Duration::from_secs(3600));
    assert_eq!(Timeout::Seconds(1).duration(), Duration::from_secs(1));
    assert_eq!(Timeout::Seconds(90).duration(), Duration::from_secs(90));
    assert_eq!(Timeout::Hours(i32::MAX).duration(), Duration::from_secs(2147483647 * 3600));
    assert_eq!(Timeout::Minutes(i32::MAX).duration(), Duration::from_secs(2147483647 * 60));
}

#[test]
fn duration_of_zero_is_zero() {
    assert_eq!(Timeout::Seconds(0).duration(), Duration::ZERO);
    assert_eq!(Timeout::Minutes(0).duration(), Duration::ZERO);
    assert_eq!(Timeout::Hours(0).duration(), Duration::ZERO);
}

#[test]
fn negative_counts_wrap_around_the_clock() {
    assert_eq!(Timeout::Seconds(-1).duration(), Duration::from_secs(u64::MAX));
    assert_eq!(Timeout::Minutes(-1).duration(), Duration::from_secs(u64::MAX - 59));
    assert_eq!(Timeout::Hours(-1).duration(), Duration::from_secs(u64::MAX - 3599));
    assert_eq!(
        Timeout::Hours(i32::MIN).duration(),
        Duration::from_secs((i32::MIN as u64).wrapping_mul(3600))
    );
    assert_eq!(
        Timeout::Minutes(-77).duration(),
        Duration::from_secs((-77i32 as u64).wrapping_mul(60))
    );
}

#[test]
fn unit_constants() {
    assert_eq!(ftp_launch::timeout::MINUTES, 60);
    assert_eq!(ftp_launch::timeout::HOURS, 3600);
}

#[test]
fn messages() {
    assert_eq!(ParseTimeoutError::Empty.message(), "empty string");
    assert_eq!(Timeout::parse("5x").unwrap_err().message(), "bad sigil in \"5x\"");
    assert_eq!(
        Timeout::parse("abc").unwrap_err().message(),
        format!("bad integer in \"abc\": {}", "ab".parse::<i32>().unwrap_err())
    );
    assert_eq!(
        Timeout::parse("abc").unwrap_err().message(),
        "bad integer in \"abc\": invalid digit found in string"
    );
    assert_eq!(
        Timeout::parse("4000000000").unwrap_err().message(),
        "bad integer in \"4000000000\": number too large to fit in target type"
    );
}

#[test]
fn messages_quote_the_text() {
    assert_eq!(
        ParseTimeoutError::Sigil(String::from("5\"x")).message(),
        "bad sigil in \"5\\\"x\""
    );
    assert_eq!(
        Timeout::parse("\tq").unwrap_err().message(),
        format!("bad integer in \"\\tq\": {}", "\t".parse::<i32>().unwrap_err())
    );
}
