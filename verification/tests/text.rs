use wapc_fixture::text::{
    append_decimal, append_line, append_signed_decimal, append_truth, decimal_text, end_line,
    signed_decimal_text, truth_text,
};

#[test]
fn decimal_of_small_numbers() {
    assert_eq!(decimal_text(0), "0");
    assert_eq!(decimal_text(9), "9");
    assert_eq!(decimal_text(10), "10");
    assert_eq!(decimal_text(1234567890), "1234567890");
}

#[test]
fn decimal_of_the_largest_number() {
    assert_eq!(decimal_text(u64::MAX), "18446744073709551615");
}

#[test]
fn decimal_agrees_with_the_standard_rendering() {
    let mut n: u64 = 1;
    for _ in 0..64 {
        assert_eq!(decimal_text(n), format!("{}", n));
        assert_eq!(decimal_text(n - 1), format!("{}", n - 1));
        n = n.wrapping_mul(2);
    }
}

#[test]
fn signed_decimal_of_both_signs() {
    assert_eq!(signed_decimal_text(0), "0");
    assert_eq!(signed_decimal_text(-1), "-1");
    assert_eq!(signed_decimal_text(42), "42");
    assert_eq!(signed_decimal_text(i64::MAX), "9223372036854775807");
    assert_eq!(signed_decimal_text(i64::MIN), "-9223372036854775808");
}

#[test]
fn appending_keeps_what_was_there() {
    let mut out = String::from("n=");
    append_decimal(&mut out, 305);
    end_line(&mut out);
    append_signed_decimal(&mut out, -20);
    end_line(&mut out);
    append_truth(&mut out, true);
    append_truth(&mut out, false);
    assert_eq!(out, "n=305\n-20\ntruefalse");
}

#[test]
fn truth_words() {
    assert_eq!(truth_text(true), "true");
    assert_eq!(truth_text(false), "false");
}

#[test]
fn a_line_is_the_piece_and_a_line_feed() {
    let mut out = String::from("{\n");
    append_line(&mut out, "x");
    append_line(&mut out, "");
    append_line(&mut out, "0e0");
    assert_eq!(out, "{\nx\n\n0e0\n");
}
