use ftms::debug_server::{
    hex_decode, hex_encode, parse_console_line, read_word, ConsoleCommand, HexError,
};

#[test]
fn hex_encode_is_lower_case_without_separators() {
    assert_eq!(hex_encode(&[]), "");
    assert_eq!(hex_encode(&[0x00]), "00");
    assert_eq!(hex_encode(&[0x80, 0x02, 0x01]), "800201");
    assert_eq!(hex_encode(&[0x0C, 0x10, 0, 0, 3, 0, 0, 0]), "0c10000003000000");
    assert_eq!(hex_encode(&[0xAB, 0xCD, 0xEF, 0x09, 0xF0]), "abcdef09f0");
}

#[test]
fn hex_encode_every_byte() {
    for byte in 0u8..=255 {
        assert_eq!(hex_encode(&[byte]), format!("{:02x}", byte));
    }
}

#[test]
fn hex_decode_reads_pairs_and_skips_spaces() {
    assert_eq!(hex_decode(""), Ok(vec![]));
    assert_eq!(hex_decode("   "), Ok(vec![]));
    assert_eq!(hex_decode("00"), Ok(vec![0x00]));
    assert_eq!(hex_decode("02f401"), Ok(vec![0x02, 0xF4, 0x01]));
    assert_eq!(hex_decode("02 f401"), Ok(vec![0x02, 0xF4, 0x01]));
    assert_eq!(hex_decode("02  f4 01"), Ok(vec![0x02, 0xF4, 0x01]));
    assert_eq!(hex_decode("0 2f 40 1"), Ok(vec![0x02, 0xF4, 0x01]));
    assert_eq!(hex_decode("ABcdEf"), Ok(vec![0xAB, 0xCD, 0xEF]));
    assert_eq!(hex_decode("ff"), Ok(vec![0xFF]));
}

#[test]
fn hex_decode_takes_a_plus_sign_before_one_digit() {
    assert_eq!(hex_decode("+f"), Ok(vec![0x0F]));
    assert_eq!(hex_decode("01+a"), Ok(vec![0x01, 0x0A]));
    assert_eq!(hex_decode("++"), Err(HexError::InvalidDigit));
    assert_eq!(hex_decode("f+"), Err(HexError::InvalidDigit));
    assert_eq!(hex_decode("-1"), Err(HexError::InvalidDigit));
}

#[test]
fn hex_decode_errors() {
    assert_eq!(hex_decode("0"), Err(HexError::OddLength));
    assert_eq!(hex_decode("123"), Err(HexError::OddLength));
    assert_eq!(hex_decode("xyz"), Err(HexError::OddLength));
    assert_eq!(hex_decode("zz"), Err(HexError::InvalidDigit));
    assert_eq!(hex_decode("gg"), Err(HexError::InvalidDigit));
    assert_eq!(hex_decode("0g"), Err(HexError::InvalidDigit));
    assert_eq!(hex_decode("$$"), Err(HexError::InvalidDigit));
    assert_eq!(hex_decode("02 gg hh"), Err(HexError::InvalidDigit));
    assert_eq!(hex_decode("02\tf4"), Err(HexError::OddLength));
    assert_eq!(hex_decode("0_"), Err(HexError::InvalidDigit));
}

#[test]
fn hex_error_messages() {
    assert_eq!(HexError::OddLength.message(), "hex string must have even length");
    assert_eq!(HexError::InvalidDigit.message(), "invalid digit found in string");
}

#[test]
fn hex_round_trip() {
    let all: Vec<u8> = (0..=255).collect();
    assert_eq!(hex_decode(&hex_encode(&all)), Ok(all));
    for bytes in [vec![], vec![0u8], vec![0x80, 0x00, 0x01], vec![0xFF; 40]] {
        assert_eq!(hex_decode(&hex_encode(&bytes)), Ok(bytes));
    }
}

#[test]
fn console_words() {
    assert!(matches!(parse_console_line(""), ConsoleCommand::Empty));
    assert!(matches!(parse_console_line("   "), ConsoleCommand::Empty));
    assert!(matches!(parse_console_line("help"), ConsoleCommand::Help));
    assert!(matches!(parse_console_line("state"), ConsoleCommand::State));
    assert!(matches!(parse_console_line("STATE"), ConsoleCommand::State));
    assert!(matches!(parse_console_line("sTaTe"), ConsoleCommand::State));
    assert!(matches!(parse_console_line("  td\r\n"), ConsoleCommand::TreadmillData));
    assert!(matches!(parse_console_line("feat"), ConsoleCommand::Feature));
    assert!(matches!(parse_console_line("sr"), ConsoleCommand::SpeedRange));
    assert!(matches!(parse_console_line("ir"), ConsoleCommand::InclineRange));
    assert!(matches!(parse_console_line("sub"), ConsoleCommand::Subscribe));
    assert!(matches!(parse_console_line("quit"), ConsoleCommand::Quit));
    assert!(matches!(parse_console_line("exit"), ConsoleCommand::Quit));
    assert!(matches!(parse_console_line("stat"), ConsoleCommand::Unknown(l) if l == "stat"));
    assert!(matches!(parse_console_line("features"), ConsoleCommand::Unknown(l) if l == "features"));
    assert!(matches!(parse_console_line("subscribe"), ConsoleCommand::Unknown(l) if l == "subscribe"));
    assert!(matches!(parse_console_line("state now"), ConsoleCommand::Unknown(l) if l == "state now"));
    assert!(matches!(parse_console_line("cp"), ConsoleCommand::Unknown(l) if l == "cp"));
    assert!(matches!(parse_console_line("cpx 00"), ConsoleCommand::Unknown(l) if l == "cpx 00"));
    assert!(matches!(parse_console_line("Asdfghjkl "), ConsoleCommand::Unknown(l) if l == "asdfghjkl"));
}

#[test]
fn console_control_point_payloads() {
    assert!(matches!(parse_console_line("cp 02 f401"), ConsoleCommand::ControlPoint(p) if p == "02 f401"));
    assert!(matches!(parse_console_line("  CP   02F401  "), ConsoleCommand::ControlPoint(p) if p == "02f401"));
    assert!(matches!(parse_console_line("cp \t00"), ConsoleCommand::ControlPoint(p) if p == "00"));
    assert!(matches!(parse_console_line("cp xyz"), ConsoleCommand::ControlPoint(p) if p == "xyz"));
}

#[test]
fn console_single_words() {
    assert!(matches!(read_word("help"), ConsoleCommand::Help));
    assert!(matches!(read_word("td"), ConsoleCommand::TreadmillData));
    // Not tidied: case counts here.
    assert!(matches!(read_word("HELP"), ConsoleCommand::Unknown(l) if l == "HELP"));
    assert!(matches!(read_word("cp 00"), ConsoleCommand::Unknown(l) if l == "cp 00"));
    assert!(matches!(read_word(""), ConsoleCommand::Unknown(l) if l.is_empty()));
}

#[test]
fn console_control_point_payload_decodes() {
    match parse_console_line("cp 02 f401") {
        ConsoleCommand::ControlPoint(payload) => {
            assert_eq!(hex_decode(&payload), Ok(vec![0x02, 0xF4, 0x01]));
        }
        other => panic!("unexpected {:?}", other),
    }
    match parse_console_line("cp xyz") {
        ConsoleCommand::ControlPoint(payload) => {
            assert_eq!(hex_decode(&payload), Err(HexError::OddLength));
        }
        other => panic!("unexpected {:?}", other),
    }
}

/// Decodes the way the standard library's integer parser would, pair by pair.
fn decode_with_std(hex: &str) -> Result<Vec<u8>, HexError> {
    let hex = hex.replace(' ', "");
    if hex.len() % 2 != 0 {
        return Err(HexError::OddLength);
    }
    (0..hex.len())
        .step_by(2)
        .map(|i| u8::from_str_radix(&hex[i..i + 2], 16).map_err(|_| HexError::InvalidDigit))
        .collect()
}

#[test]
fn hex_decode_agrees_with_the_standard_parser_on_ascii() {
    let alphabet = ['0', '9', 'a', 'f', 'A', 'F', 'g', 'G', '+', '-', ' ', '_', 'x', '/', ':', '@', '`'];
    for a in alphabet {
        for b in alphabet {
            for c in alphabet {
                let text: String = [a, b, c].iter().collect();
                assert_eq!(hex_decode(&text), decode_with_std(&text), "for {:?}", text);
                let text: String = [a, b, c, '7'].iter().collect();
                assert_eq!(hex_decode(&text), decode_with_std(&text), "for {:?}", text);
            }
        }
    }
    for first in 0u8..128 {
        for second in 0u8..128 {
            let text: String = [first as char, second as char].iter().collect();
            assert_eq!(hex_decode(&text), decode_with_std(&text), "for {:?}", text);
        }
    }
}

#[test]
fn hex_decode_refuses_text_outside_ascii() {
    assert!(hex_decode("é").is_err());
    assert!(hex_decode("aéb").is_err());
    assert!(hex_decode("０１").is_err());
    assert!(hex_decode("0\u{a0}1").is_err());
}
