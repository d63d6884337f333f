use greeter::port::{parse_port, port_text, PortError, MAX_PORT};

#[test]
fn largest_port_is_65535() {
    assert_eq!(MAX_PORT, 65535);
}

#[test]
fn port_text_of_single_digits() {
    let expected = ["0", "1", "2", "3", "4", "5", "6", "7", "8", "9"];
    for (port, text) in expected.iter().enumerate() {
        assert_eq!(port_text(port as u16), *text);
    }
}

#[test]
fn port_text_has_no_leading_zeros() {
    assert_eq!(port_text(10), "10");
    assert_eq!(port_text(100), "100");
    assert_eq!(port_text(1234), "1234");
    assert_eq!(port_text(54321), "54321");
    assert_eq!(port_text(60000), "60000");
    assert_eq!(port_text(65535), "65535");
}

#[test]
fn port_text_is_the_usual_decimal_text() {
    for port in 0..=u16::MAX {
        assert_eq!(port_text(port), port.to_string());
    }
}

#[test]
fn parse_port_reads_plain_numbers() {
    assert_eq!(parse_port("0"), Ok(0));
    assert_eq!(parse_port("80"), Ok(80));
    assert_eq!(parse_port("1234"), Ok(1234));
    assert_eq!(parse_port("65535"), Ok(65535));
}

#[test]
fn parse_port_allows_a_sign_and_leading_zeros() {
    assert_eq!(parse_port("+80"), Ok(80));
    assert_eq!(parse_port("-0"), Ok(0));
    assert_eq!(parse_port("00080"), Ok(80));
    assert_eq!(parse_port("+0000000000000000000000065535"), Ok(65535));
}

#[test]
fn parse_port_rejects_a_port_out_of_range() {
    assert_eq!(parse_port("70000"), Err(PortError::OutOfRange));
}

#[test]
fn parse_port_rejects_the_first_number_beyond_the_range() {
    assert_eq!(parse_port("65536"), Err(PortError::OutOfRange));
}

#[test]
fn parse_port_rejects_negative_numbers() {
    assert_eq!(parse_port("-1"), Err(PortError::OutOfRange));
    assert_eq!(parse_port("-65535"), Err(PortError::OutOfRange));
}

#[test]
fn parse_port_rejects_numbers_of_any_length() {
    assert_eq!(parse_port("4294967296"), Err(PortError::OutOfRange));
    assert_eq!(parse_port("4294967376"), Err(PortError::OutOfRange));
    assert_eq!(parse_port("18446744073709551616"), Err(PortError::OutOfRange));
    assert_eq!(
        parse_port("99999999999999999999999999999999999999999999"),
        Err(PortError::OutOfRange)
    );
    assert_eq!(
        parse_port("-99999999999999999999999999999999999999999999"),
        Err(PortError::OutOfRange)
    );
}

#[test]
fn parse_port_rejects_what_is_no_number() {
    for text in ["", "+", "-", "abc", "12a", "a12", "1 2", " 80", "80 ", "8+0", "--1", "+-1", "0x50", "1.5"] {
        assert_eq!(parse_port(text), Err(PortError::NotANumber), "{:?}", text);
    }
}

#[test]
fn parse_port_rejects_digits_that_are_not_ascii() {
    assert_eq!(parse_port("８０"), Err(PortError::NotANumber));
    assert_eq!(parse_port("٨٠"), Err(PortError::NotANumber));
}

#[test]
fn parse_port_says_no_number_before_out_of_range() {
    assert_eq!(parse_port("70000x"), Err(PortError::NotANumber));
    assert_eq!(parse_port("x70000"), Err(PortError::NotANumber));
}

#[test]
fn parse_port_reads_back_every_port_text() {
    for port in 0..=u16::MAX {
        assert_eq!(parse_port(&port_text(port)), Ok(port));
    }
}

#[test]
fn parse_port_accepts_what_a_signed_parse_in_range_accepts() {
    let samples = [
        "0", "-0", "+0", "1", "+1", "-1", "65535", "65536", "+65535", "-65535", "007", "",
        "+", "-", "1e3", "12345", "123456", "9223372036854775807", "9223372036854775808",
        "-9223372036854775808", "abc", "1_000", "٣", " 1",
    ];
    for text in samples {
        let expected = match text.parse::<i64>() {
            Ok(value) => (0..=65535).contains(&value),
            Err(_) => false,
        };
        assert_eq!(parse_port(text).is_ok(), expected, "{:?}", text);
    }
}

#[test]
fn port_error_messages() {
    assert_eq!(PortError::NotANumber.message(), "not a number");
    assert_eq!(PortError::OutOfRange.message(), "not in 0..=65535");
}
