use hwtop::parse::{
    copy_range, find_byte, has_prefix, is_all_digits, is_decimal_text, parse_number,
    parse_signed, parse_thousandths, parse_unsigned, same_bytes, skip_byte, split_fields,
};

#[test]
fn find_stops_at_the_first_match() {
    assert_eq!(find_byte(b"a\nb\nc", b'\n', 0), 1);
    assert_eq!(find_byte(b"a\nb\nc", b'\n', 1), 1);
    assert_eq!(find_byte(b"a\nb\nc", b'\n', 2), 3);
    assert_eq!(find_byte(b"a\nb\nc", b'\n', 4), 5);
    assert_eq!(find_byte(b"a\nb\nc", b'\n', 5), 5);
    assert_eq!(find_byte(b"", b'\n', 0), 0);
}

#[test]
fn skip_stops_at_the_first_other_byte() {
    assert_eq!(skip_byte(b"\t\t: 1", b'\t', 0), 2);
    assert_eq!(skip_byte(b"\t\t: 1", b'\t', 2), 2);
    assert_eq!(skip_byte(b"\t\t", b'\t', 0), 2);
    assert_eq!(skip_byte(b"", b'\t', 0), 0);
}

#[test]
fn digits_only() {
    assert!(is_all_digits(b"0123456789"));
    assert!(is_all_digits(b""));
    assert!(!is_all_digits(b"12a"));
    assert!(!is_all_digits(b"/"));
    assert!(!is_all_digits(b":"));
}

#[test]
fn numbers_within_a_limit() {
    assert_eq!(parse_number(b"0", 0), Some(0));
    assert_eq!(parse_number(b"1", 0), None);
    assert_eq!(parse_number(b"000", 0), Some(0));
    assert_eq!(parse_number(b"65535", 65535), Some(65535));
    assert_eq!(parse_number(b"65536", 65535), None);
    assert_eq!(parse_number(b"", 65535), None);
    assert_eq!(parse_number(b"+1", 65535), None);
    assert_eq!(parse_number(b"99999999999999999999999999999999999999999", u128::MAX), None);
    assert_eq!(parse_number(b"9999999999999999999999999999999999999999x", 5), None);
}

#[test]
fn unsigned_numbers_may_have_a_plus() {
    assert_eq!(parse_unsigned(b"+5", 10), Some(5));
    assert_eq!(parse_unsigned(b"5", 10), Some(5));
    assert_eq!(parse_unsigned(b"+", 10), None);
    assert_eq!(parse_unsigned(b"-5", 10), None);
    assert_eq!(parse_unsigned(b"++5", 10), None);
}

#[test]
fn signed_numbers() {
    assert_eq!(parse_signed(b"-128", 128, 127), Some(-128));
    assert_eq!(parse_signed(b"-129", 128, 127), None);
    assert_eq!(parse_signed(b"127", 128, 127), Some(127));
    assert_eq!(parse_signed(b"+127", 128, 127), Some(127));
    assert_eq!(parse_signed(b"128", 128, 127), None);
    assert_eq!(parse_signed(b"-", 128, 127), None);
    assert_eq!(parse_signed(b"", 128, 127), None);
    assert_eq!(
        parse_signed(b"-18446744073709551615", u64::MAX, u64::MAX),
        Some(-(u64::MAX as i128))
    );
}

#[test]
fn decimals() {
    assert!(is_decimal_text(b"2195.882"));
    assert!(is_decimal_text(b"3400"));
    assert!(is_decimal_text(b"0.5"));
    assert!(!is_decimal_text(b""));
    assert!(!is_decimal_text(b"."));
    assert!(!is_decimal_text(b"1."));
    assert!(!is_decimal_text(b".5"));
    assert!(!is_decimal_text(b"1.2.3"));
    assert!(!is_decimal_text(b"1,5"));
    assert_eq!(parse_thousandths(b"2195.882"), Some(2_195_882));
    assert_eq!(parse_thousandths(b"3400"), Some(3_400_000));
    assert_eq!(parse_thousandths(b"0.5"), Some(500));
    assert_eq!(parse_thousandths(b"0.05"), Some(50));
    assert_eq!(parse_thousandths(b"1.9999"), Some(1_999));
    assert_eq!(parse_thousandths(b"18446744073709551.615"), Some(u64::MAX));
    assert_eq!(parse_thousandths(b"18446744073709551.616"), None);
    assert_eq!(parse_thousandths(b"18446744073709552"), None);
}

#[test]
fn prefixes_and_equality() {
    assert!(has_prefix(b"cpu0 1 2", b"cpu"));
    assert!(has_prefix(b"cpu", b"cpu"));
    assert!(has_prefix(b"cpu", b""));
    assert!(!has_prefix(b"cp", b"cpu"));
    assert!(!has_prefix(b" cpu", b"cpu"));
    assert!(same_bytes(b"Full", b"Full"));
    assert!(same_bytes(b"", b""));
    assert!(!same_bytes(b"Full", b"Full "));
    assert!(!same_bytes(b"Full", b"full"));
}

#[test]
fn ranges_are_copied() {
    assert_eq!(copy_range(b"cpu12", 3, 5), b"12".to_vec());
    assert_eq!(copy_range(b"cpu12", 5, 5), Vec::<u8>::new());
    assert_eq!(copy_range(b"cpu12", 0, 5), b"cpu12".to_vec());
}

#[test]
fn fields_are_what_stands_between_spaces() {
    assert_eq!(
        split_fields(b"cpu  100 20   30"),
        vec![b"cpu".to_vec(), b"100".to_vec(), b"20".to_vec(), b"30".to_vec()]
    );
    assert_eq!(split_fields(b"  lead and trail  "), vec![b"lead".to_vec(), b"and".to_vec(), b"trail".to_vec()]);
    assert_eq!(split_fields(b"one"), vec![b"one".to_vec()]);
    assert_eq!(split_fields(b""), Vec::<Vec<u8>>::new());
    assert_eq!(split_fields(b"   "), Vec::<Vec<u8>>::new());
    assert_eq!(split_fields(b"tab\tis no space"), vec![b"tab\tis".to_vec(), b"no".to_vec(), b"space".to_vec()]);
}

#[test]
fn lines_are_walked_one_by_one() {
    let content = b"first\n\nthird\nlast";
    let mut lines = Vec::new();
    let mut start = Some(0);
    while let Some(at) = start {
        let (line, next) = hwtop::parse::next_line(content, at);
        lines.push(line.to_vec());
        start = next;
    }
    assert_eq!(lines, vec![b"first".to_vec(), Vec::new(), b"third".to_vec(), b"last".to_vec()]);
}

#[test]
fn nothing_follows_a_final_line_feed() {
    assert_eq!(hwtop::parse::next_line(b"only\n", 0), (&b"only"[..], None));
    assert_eq!(hwtop::parse::next_line(b"only", 0), (&b"only"[..], None));
    assert_eq!(hwtop::parse::next_line(b"\n", 0), (&b""[..], None));
    assert_eq!(hwtop::parse::next_line(b"\n\n", 0), (&b""[..], Some(1)));
    assert_eq!(hwtop::parse::next_line(b"a\nb", 0), (&b"a"[..], Some(2)));
    assert_eq!(hwtop::parse::next_line(b"a\nb", 2), (&b"b"[..], None));
}
