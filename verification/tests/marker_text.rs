use compute_agent::decimal::{to_decimal, to_decimal_string};
use compute_agent::marker::{encode_pid, parse_marker};

#[test]
fn decimal_of_small_numbers() {
    assert_eq!(to_decimal(0), b"0".to_vec());
    assert_eq!(to_decimal(7), b"7".to_vec());
    assert_eq!(to_decimal(10), b"10".to_vec());
    assert_eq!(to_decimal(99), b"99".to_vec());
    assert_eq!(to_decimal(100), b"100".to_vec());
    assert_eq!(to_decimal(12345), b"12345".to_vec());
}

#[test]
fn decimal_of_largest_number() {
    assert_eq!(to_decimal(u32::MAX), b"4294967295".to_vec());
    assert_eq!(to_decimal_string(u32::MAX), "4294967295");
}

#[test]
fn decimal_string_matches_bytes() {
    for n in [0u32, 1, 9, 10, 11, 512, 1000, 65535, 65536, 4000000000] {
        assert_eq!(to_decimal_string(n).into_bytes(), to_decimal(n));
        assert_eq!(to_decimal_string(n), format!("{}", n));
    }
}

#[test]
fn marker_holds_the_pid_and_nothing_else() {
    assert_eq!(encode_pid(4242), b"4242".to_vec());
    assert_eq!(encode_pid(1), b"1".to_vec());
    assert_eq!(encode_pid(0), b"0".to_vec());
}

#[test]
fn marker_reads_back_what_was_written() {
    for pid in [0u32, 1, 2, 9, 10, 99, 100, 4242, 32768, 4194304, u32::MAX - 1, u32::MAX] {
        assert_eq!(parse_marker(&encode_pid(pid)), Some(pid));
    }
}

#[test]
fn marker_plain_digits() {
    assert_eq!(parse_marker(b"123"), Some(123));
    assert_eq!(parse_marker(b"0"), Some(0));
    assert_eq!(parse_marker(b"00012"), Some(12));
}

#[test]
fn marker_blanks_around_are_ignored() {
    assert_eq!(parse_marker(b"42\n"), Some(42));
    assert_eq!(parse_marker(b" 42"), Some(42));
    assert_eq!(parse_marker(b"\t 42 \r\n"), Some(42));
    assert_eq!(parse_marker(b"\x0b\x0c42\x0c\x0b"), Some(42));
    assert_eq!(parse_marker(b" 42\n"), parse_marker(b"42"));
}

#[test]
fn marker_blanks_inside_are_not() {
    assert_eq!(parse_marker(b"4 2"), None);
    assert_eq!(parse_marker(b"4\n2"), None);
}

#[test]
fn marker_without_digits() {
    assert_eq!(parse_marker(b""), None);
    assert_eq!(parse_marker(b" "), None);
    assert_eq!(parse_marker(b"\n\n\t"), None);
}

#[test]
fn marker_with_other_bytes() {
    assert_eq!(parse_marker(b"12a"), None);
    assert_eq!(parse_marker(b"a12"), None);
    assert_eq!(parse_marker(b"+5"), None);
    assert_eq!(parse_marker(b"-5"), None);
    assert_eq!(parse_marker(b"1.5"), None);
    assert_eq!(parse_marker(b"0x10"), None);
    assert_eq!(parse_marker(&[0x31, 0xc2, 0xa0]), None);
    assert_eq!(parse_marker(&[0x00, 0x31]), None);
    assert_eq!(parse_marker(b"/"), None);
    assert_eq!(parse_marker(b":"), None);
}

#[test]
fn marker_at_the_limit_of_a_pid() {
    assert_eq!(parse_marker(b"4294967295"), Some(u32::MAX));
    assert_eq!(parse_marker(b"4294967296"), None);
    assert_eq!(parse_marker(b"04294967295"), Some(u32::MAX));
    assert_eq!(parse_marker(b"42949672950"), None);
    assert_eq!(parse_marker(b"99999999999999999999999999999999"), None);
    assert_eq!(parse_marker(b"18446744073709551616"), None);
    assert_eq!(parse_marker(b"4294967296x"), None);
}
