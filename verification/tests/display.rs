use pong::display::{decimal_digits, score_line_chars};
use pong::Score;

fn text(chars: Vec<char>) -> String {
    chars.into_iter().collect()
}

#[test]
fn love_all_reads_zero_zero() {
    let line = score_line_chars(&Score { p1: 0, p2: 0 });
    assert_eq!(text(line), "0 0");
}

#[test]
fn counters_render_in_decimal() {
    let line = score_line_chars(&Score { p1: 10, p2: 3 });
    assert_eq!(text(line), "10 3");
}

#[test]
fn large_counters_keep_every_digit() {
    let line = score_line_chars(&Score { p1: 1234567890, p2: 42 });
    assert_eq!(text(line), "1234567890 42");
}

#[test]
fn single_digits() {
    for n in 0..10u32 {
        let digits = decimal_digits(n);
        assert_eq!(text(digits), n.to_string());
    }
}

#[test]
fn round_numbers_keep_their_zeroes() {
    assert_eq!(text(decimal_digits(100)), "100");
    assert_eq!(text(decimal_digits(4294967295)), "4294967295");
}
