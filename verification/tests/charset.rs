use shell_parser_common_rs::charset::{parse_charset, Charset, DecodeMismatch};
use shell_parser_common_rs::ShellParseError;

#[test]
fn sucess_when_valid_str_ascii() {
    let case = "ASCII\r\n";
    let (remain, result) = parse_charset(case).unwrap();
    assert_eq!(remain, "\r\n");
    assert_eq!(result, Charset::ASCII);
}

#[test]
fn sucess_when_valid_str_shift_jis() {
    let case = "Shift_JIS\r\n";
    let (remain, result) = parse_charset(case).unwrap();
    assert_eq!(remain, "\r\n");
    assert_eq!(result, Charset::ShiftJIS);
}

#[test]
fn sucess_when_valid_str_iso_2022_jp() {
    let case = "ISO-2022-JP\r\n";
    let (remain, result) = parse_charset(case).unwrap();
    assert_eq!(remain, "\r\n");
    assert_eq!(result, Charset::ISO2022JP);
}

#[test]
fn sucess_when_valid_str_euc_jp() {
    let case = "EUC-JP\r\n";
    let (remain, result) = parse_charset(case).unwrap();
    assert_eq!(remain, "\r\n");
    assert_eq!(result, Charset::EUCJP);
}

#[test]
fn sucess_when_valid_str_utf_8() {
    let case = "UTF-8\r\n";
    let (remain, result) = parse_charset(case).unwrap();
    assert_eq!(remain, "\r\n");
    assert_eq!(result, Charset::UTF8);
}

#[test]
fn failed_when_invalid_str() {
    let case = "x76";
    assert!(parse_charset(case).is_err());
}

#[test]
fn basic_behavior() {
    let charset = Charset::ASCII;
    println!("{:?}", charset.clone());
}

#[test]
fn success_when_valid_str() {
    let case = "abcdefg".as_bytes();
    let result = Charset::ASCII.decode(case).unwrap();
    assert_eq!(result, "abcdefg");

    let case_raw = "あいうえお";
    let (case, _, _) = encoding_rs::SHIFT_JIS.encode(case_raw);
    let result = Charset::ShiftJIS.decode(&case).unwrap();
    assert_eq!(result, case_raw);

    let case_raw = "あいうえお";
    let (case, _, _) = encoding_rs::ISO_2022_JP.encode(case_raw);
    let result = Charset::ISO2022JP.decode(&case).unwrap();
    assert_eq!(result, case_raw);

    let case_raw = "あいうえお";
    let (case, _, _) = encoding_rs::EUC_JP.encode(case_raw);
    let result = Charset::EUCJP.decode(&case).unwrap();
    assert_eq!(result, case_raw);

    let case_raw = "あいうえお";
    let (case, _, _) = encoding_rs::UTF_8.encode(case_raw);
    let result = Charset::UTF8.decode(&case).unwrap();
    assert_eq!(result, case_raw);

    let case_raw = "あいうえお";
    let case = case_raw.as_bytes();
    let result = Charset::Default.decode(case).unwrap();
    assert_eq!(result, case_raw);
}

#[test]
fn charset_failed_when_invalid_str() {
    let case_raw = "あいうえお";
    let (case, _, _) = encoding_rs::SHIFT_JIS.encode(case_raw);
    assert!(Charset::UTF8.decode(&case).is_err());
}

#[test]
fn parse_keeps_any_suffix_untouched() {
    let (remain, result) = parse_charset("ASCII").unwrap();
    assert_eq!(remain, "");
    assert_eq!(result, Charset::ASCII);

    let (remain, result) = parse_charset("EUC-JPcharset,1").unwrap();
    assert_eq!(remain, "charset,1");
    assert_eq!(result, Charset::EUCJP);

    let (remain, result) = parse_charset("UTF-8\nUTF-8").unwrap();
    assert_eq!(remain, "\nUTF-8");
    assert_eq!(result, Charset::UTF8);
}

#[test]
fn parse_is_exact_and_case_sensitive() {
    assert!(parse_charset("ascii").is_err());
    assert!(parse_charset("UTF8").is_err());
    assert!(parse_charset(" ASCII").is_err());
    assert!(parse_charset("shift_jis\r\n").is_err());
    assert!(parse_charset("").is_err());
}

#[test]
fn parse_reports_no_match_with_the_input() {
    match parse_charset("x76") {
        Ok(_) => panic!("expected NoMatch"),
        Err(ShellParseError::NoMatch(rest)) => assert_eq!(rest, "x76"),
    }
}

#[test]
fn parse_twice_yields_the_same_result() {
    let case = "Shift_JIS\r\nabc";
    let first = parse_charset(case);
    let second = parse_charset(case);
    assert_eq!(first, second);
    assert_eq!(first.unwrap(), ("\r\nabc", Charset::ShiftJIS));

    let case = "x76";
    assert_eq!(parse_charset(case), parse_charset(case));
}

#[test]
fn parse_header_scenario() {
    let (remain, result) = parse_charset("Shift_JIS\r\ncharset,Shift_JIS").unwrap();
    assert_eq!(result, Charset::ShiftJIS);
    assert_eq!(remain, "\r\ncharset,Shift_JIS");
}

#[test]
fn decode_mismatch_is_the_single_decode_error() {
    let (case, _, _) = encoding_rs::SHIFT_JIS.encode("あいうえお");
    assert_eq!(Charset::UTF8.decode(&case), Err(DecodeMismatch));
    assert_eq!(Charset::EUCJP.decode(&case), Err(DecodeMismatch));
}

#[test]
fn decode_rejects_an_encoding_switched_by_a_byte_order_mark() {
    // A UTF-16LE byte-order mark makes the decoder switch encodings;
    // the switch must be rejected, not silently accepted.
    let case: [u8; 4] = [0xFF, 0xFE, 0x61, 0x00];
    assert!(Charset::UTF8.decode(&case).is_err());
}

#[test]
fn decode_accepts_empty_input() {
    let empty: [u8; 0] = [];
    assert_eq!(Charset::ASCII.decode(&empty).unwrap(), "");
    assert_eq!(Charset::UTF8.decode(&empty).unwrap(), "");
    assert_eq!(Charset::ShiftJIS.decode(&empty).unwrap(), "");
    assert_eq!(Charset::ISO2022JP.decode(&empty).unwrap(), "");
    assert_eq!(Charset::EUCJP.decode(&empty).unwrap(), "");
    assert_eq!(Charset::Default.decode(&empty).unwrap(), "");
}

#[test]
fn default_decode_never_fails() {
    let invalid: [u8; 3] = [0xFF, 0x80, 0xC0];
    let result = Charset::Default.decode(&invalid).unwrap();
    assert_eq!(result, "\u{FFFD}\u{FFFD}\u{FFFD}");

    let half_valid: [u8; 4] = [0x61, 0xFF, 0x62, 0x63];
    let result = Charset::Default.decode(&half_valid).unwrap();
    assert_eq!(result, "a\u{FFFD}bc");
}

#[test]
fn ascii_and_utf_8_decode_alike() {
    let case = "plain ascii".as_bytes();
    assert_eq!(
        Charset::ASCII.decode(case).unwrap(),
        Charset::UTF8.decode(case).unwrap()
    );

    let invalid: [u8; 2] = [0xFF, 0xFF];
    assert!(Charset::ASCII.decode(&invalid).is_err());
    assert!(Charset::UTF8.decode(&invalid).is_err());
}
