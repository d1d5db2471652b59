use backend_sidecar::readiness::parse_ready_line;

fn line(rest: &str) -> String {
    format!("SERVER_PORT={}", rest)
}

#[test]
fn plain_port_is_read() {
    assert_eq!(parse_ready_line("SERVER_PORT=8080"), Some(8080));
    assert_eq!(parse_ready_line("SERVER_PORT=3000"), Some(3000));
    assert_eq!(parse_ready_line("SERVER_PORT=1"), Some(1));
}

#[test]
fn smallest_and_largest_port_are_read() {
    assert_eq!(parse_ready_line("SERVER_PORT=0"), Some(0));
    assert_eq!(parse_ready_line("SERVER_PORT=65535"), Some(65535));
}

#[test]
fn every_port_is_read_back() {
    for port in 0..=u16::MAX {
        assert_eq!(parse_ready_line(&format!("SERVER_PORT={}", port)), Some(port));
    }
}

#[test]
fn every_port_is_read_back_with_whitespace_around_it() {
    for port in 0..=u16::MAX {
        assert_eq!(parse_ready_line(&format!("SERVER_PORT= \t{}\r\n", port)), Some(port));
    }
}

#[test]
fn whitespace_around_the_number_is_trimmed() {
    assert_eq!(parse_ready_line("SERVER_PORT= 8080"), Some(8080));
    assert_eq!(parse_ready_line("SERVER_PORT=8080 "), Some(8080));
    assert_eq!(parse_ready_line("SERVER_PORT=8080\n"), Some(8080));
    assert_eq!(parse_ready_line("SERVER_PORT=8080\r\n"), Some(8080));
    assert_eq!(parse_ready_line("SERVER_PORT=\t 8080 \t"), Some(8080));
    assert_eq!(parse_ready_line("SERVER_PORT=\u{0B}\u{0C}8080\u{0B}\u{0C}"), Some(8080));
}

#[test]
fn unicode_whitespace_is_trimmed() {
    assert_eq!(parse_ready_line("SERVER_PORT=\u{85}8080\u{A0}"), Some(8080));
    assert_eq!(parse_ready_line("SERVER_PORT=\u{1680}8080\u{2000}"), Some(8080));
    assert_eq!(parse_ready_line("SERVER_PORT=\u{200A}8080\u{2028}"), Some(8080));
    assert_eq!(parse_ready_line("SERVER_PORT=\u{2029}8080\u{202F}"), Some(8080));
    assert_eq!(parse_ready_line("SERVER_PORT=\u{205F}8080\u{3000}"), Some(8080));
}

#[test]
fn characters_near_whitespace_are_not_trimmed() {
    assert_eq!(parse_ready_line("SERVER_PORT=\u{08}8080"), None);
    assert_eq!(parse_ready_line("SERVER_PORT=\u{0E}8080"), None);
    assert_eq!(parse_ready_line("SERVER_PORT=\u{1F}8080"), None);
    assert_eq!(parse_ready_line("SERVER_PORT=\u{200B}8080"), None);
    assert_eq!(parse_ready_line("SERVER_PORT=\u{180E}8080"), None);
    assert_eq!(parse_ready_line("SERVER_PORT=\u{FEFF}8080"), None);
    assert_eq!(parse_ready_line("SERVER_PORT=8080\u{FFFD}"), None);
}

#[test]
fn leading_plus_sign_is_accepted_once() {
    assert_eq!(parse_ready_line("SERVER_PORT=+80"), Some(80));
    assert_eq!(parse_ready_line("SERVER_PORT= +65535 "), Some(65535));
    assert_eq!(parse_ready_line("SERVER_PORT=+"), None);
    assert_eq!(parse_ready_line("SERVER_PORT=++80"), None);
    assert_eq!(parse_ready_line("SERVER_PORT=+ 80"), None);
    assert_eq!(parse_ready_line("SERVER_PORT=80+"), None);
}

#[test]
fn minus_sign_is_refused() {
    assert_eq!(parse_ready_line("SERVER_PORT=-80"), None);
    assert_eq!(parse_ready_line("SERVER_PORT=-0"), None);
    assert_eq!(parse_ready_line("SERVER_PORT=-"), None);
}

#[test]
fn leading_zeros_are_accepted() {
    assert_eq!(parse_ready_line("SERVER_PORT=00080"), Some(80));
    assert_eq!(parse_ready_line("SERVER_PORT=000000000000000000000000065535"), Some(65535));
    assert_eq!(parse_ready_line("SERVER_PORT=0000"), Some(0));
    assert_eq!(parse_ready_line("SERVER_PORT=+007"), Some(7));
}

#[test]
fn non_numeric_value_is_no_port() {
    assert_eq!(parse_ready_line("SERVER_PORT=abc"), None);
    assert_eq!(parse_ready_line("SERVER_PORT=80a"), None);
    assert_eq!(parse_ready_line("SERVER_PORT=a80"), None);
    assert_eq!(parse_ready_line("SERVER_PORT=0x50"), None);
    assert_eq!(parse_ready_line("SERVER_PORT=8_080"), None);
    assert_eq!(parse_ready_line("SERVER_PORT=80.0"), None);
    assert_eq!(parse_ready_line("SERVER_PORT=80 80"), None);
    assert_eq!(parse_ready_line("SERVER_PORT=\u{FF18}\u{FF10}"), None);
    assert_eq!(parse_ready_line("SERVER_PORT=\u{0663}"), None);
}

#[test]
fn value_out_of_range_is_no_port() {
    assert_eq!(parse_ready_line("SERVER_PORT=99999"), None);
    assert_eq!(parse_ready_line("SERVER_PORT=65536"), None);
    assert_eq!(parse_ready_line("SERVER_PORT=70000"), None);
    assert_eq!(parse_ready_line("SERVER_PORT=655350"), None);
    assert_eq!(parse_ready_line("SERVER_PORT=4294967296"), None);
    assert_eq!(parse_ready_line("SERVER_PORT=4294967376"), None);
    assert_eq!(parse_ready_line("SERVER_PORT=18446744073709551696"), None);
    assert_eq!(
        parse_ready_line("SERVER_PORT=99999999999999999999999999999999999999999999"),
        None
    );
    assert_eq!(parse_ready_line("SERVER_PORT=65536x"), None);
}

#[test]
fn missing_value_is_no_port() {
    assert_eq!(parse_ready_line("SERVER_PORT="), None);
    assert_eq!(parse_ready_line("SERVER_PORT= "), None);
    assert_eq!(parse_ready_line("SERVER_PORT=\n"), None);
    assert_eq!(parse_ready_line("SERVER_PORT= \t\r\n"), None);
}

#[test]
fn marker_must_open_the_line_exactly() {
    assert_eq!(parse_ready_line(""), None);
    assert_eq!(parse_ready_line("8080"), None);
    assert_eq!(parse_ready_line("SERVER_PORT"), None);
    assert_eq!(parse_ready_line("SERVER_POR"), None);
    assert_eq!(parse_ready_line(" SERVER_PORT=8080"), None);
    assert_eq!(parse_ready_line("\tSERVER_PORT=8080"), None);
    assert_eq!(parse_ready_line("server_port=8080"), None);
    assert_eq!(parse_ready_line("Server_Port=8080"), None);
    assert_eq!(parse_ready_line("SERVER_PORT =8080"), None);
    assert_eq!(parse_ready_line("SERVER-PORT=8080"), None);
    assert_eq!(parse_ready_line("SERVER_PORT:8080"), None);
    assert_eq!(parse_ready_line("XSERVER_PORT=8080"), None);
    assert_eq!(parse_ready_line("listening, SERVER_PORT=8080"), None);
    assert_eq!(parse_ready_line("\u{FFFD}SERVER_PORT=8080"), None);
}

#[test]
fn marker_twice_is_no_port() {
    assert_eq!(parse_ready_line("SERVER_PORT=SERVER_PORT=8080"), None);
}

#[test]
fn agrees_with_trim_and_parse_of_the_standard_library() {
    let samples = [
        "", " ", "0", "7", "+7", "-7", "+", "-", "+-7", "65535", "65536", "065535", "0065536",
        " 12 ", "\t12\n", "1 2", "12abc", "abc", "\u{967}\u{968}", "\u{663}", "1e3", "1.0",
        "0b1", "0o7", "\u{A0}5", "5\u{3000}", "\u{2003}\u{2003}443\u{2003}", "\u{200B}5",
        "5\u{200B}", "\u{FEFF}5", "\u{660}", "000000000000000000000", "99999999999999999999",
        "+0", "+00", "++0", " +1", "+ 1", "\u{1680}+8080\u{205F}", "\u{85}\u{85}", "4294967295",
        "4294967297", "\u{FF16}\u{FF15}\u{FF15}\u{FF13}\u{FF15}",
    ];
    for sample in samples {
        assert_eq!(
            parse_ready_line(&line(sample)),
            sample.trim().parse::<u16>().ok(),
            "{:?}",
            sample
        );
    }
}

fn agrees_on_padding_chars(from: u32, to: u32) {
    for code in from..to {
        if let Some(c) = char::from_u32(code) {
            let sample = format!("{}7{}", c, c);
            assert_eq!(
                parse_ready_line(&line(&sample)),
                sample.trim().parse::<u16>().ok(),
                "U+{:04X}",
                code
            );
        }
    }
}

#[test]
fn whitespace_is_what_the_standard_library_trims_in_the_basic_plane() {
    agrees_on_padding_chars(0, 0x1_0000);
}

#[test]
fn whitespace_is_what_the_standard_library_trims_beyond_the_basic_plane() {
    agrees_on_padding_chars(0x1_0000, 0x11_0000);
}

#[test]
fn digits_are_what_the_standard_library_parses() {
    for code in 0..0x3_0000u32 {
        if let Some(c) = char::from_u32(code) {
            let sample = format!("1{}", c);
            assert_eq!(
                parse_ready_line(&line(&sample)),
                sample.trim().parse::<u16>().ok(),
                "U+{:04X}",
                code
            );
        }
    }
}
