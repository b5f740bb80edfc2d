use usbip::text::{bytes_equal, parse_number, push_decimal, split_lines, split_tokens};

#[test]
fn numbers_in_decimal_and_hex() {
    assert_eq!(parse_number(b"0042", false, 100), Some(42));
    assert_eq!(parse_number(b"101", false, 100), None);
    assert_eq!(parse_number(b"", false, 100), None);
    assert_eq!(parse_number(b"-1", false, 100), None);
    assert_eq!(parse_number(b"ff", false, 1000), None);
    assert_eq!(parse_number(b"fF", true, 1000), Some(255));
    assert_eq!(parse_number(b"ffffffff", true, u32::MAX as u64), Some(0xffff_ffff));
    assert_eq!(parse_number(b"100000000", true, u32::MAX as u64), None);
    assert_eq!(parse_number(b"99999999999999999999999", false, u64::MAX), None);
    assert_eq!(parse_number(b"18446744073709551615", false, u64::MAX), Some(u64::MAX));
}

#[test]
fn decimal_notation() {
    let mut out = b"x=".to_vec();
    push_decimal(&mut out, 0);
    out.push(b',');
    push_decimal(&mut out, 3240);
    out.push(b',');
    push_decimal(&mut out, u64::MAX);
    assert_eq!(out, b"x=0,3240,18446744073709551615".to_vec());
}

#[test]
fn lines_and_tokens() {
    assert_eq!(split_lines(b"a\n\nb\n"), vec![b"a".to_vec(), b"".to_vec(), b"b".to_vec()]);
    assert_eq!(split_lines(b"a\nb"), vec![b"a".to_vec(), b"b".to_vec()]);
    assert!(split_lines(b"").is_empty());
    assert_eq!(
        split_tokens(b"  hs  0001\t004\r\n"),
        vec![b"hs".to_vec(), b"0001".to_vec(), b"004".to_vec()]
    );
    assert!(split_tokens(b" \t ").is_empty());
    assert!(bytes_equal(b"1-1", b"1-1"));
    assert!(!bytes_equal(b"1-1", b"1-1.3"));
}
