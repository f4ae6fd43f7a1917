use seed_trials::default_fdbserver_path;
use seed_trials::text::{append_decimal, format_decimal, split_lines, to_chars};

#[test]
fn default_simulator_path() {
    assert_eq!(default_fdbserver_path(), "/usr/sbin/fdbserver");
}

#[test]
fn decimal_numerals() {
    assert_eq!(format_decimal(0), "0");
    assert_eq!(format_decimal(7), "7");
    assert_eq!(format_decimal(10), "10");
    assert_eq!(format_decimal(4294967295), "4294967295");
    assert_eq!(format_decimal(u64::MAX), "18446744073709551615");
    let mut text = String::from("seed ");
    append_decimal(&mut text, 42);
    assert_eq!(text, "seed 42");
}

#[test]
fn lines_end_at_line_feeds() {
    assert_eq!(split_lines(""), Vec::<String>::new());
    assert_eq!(split_lines("a"), vec!["a"]);
    assert_eq!(split_lines("a\n"), vec!["a"]);
    assert_eq!(split_lines("a\nb"), vec!["a", "b"]);
    assert_eq!(split_lines("a\n\nb\n"), vec!["a", "", "b"]);
    assert_eq!(split_lines("\n"), vec![""]);
}

#[test]
fn carriage_returns_belong_to_the_line_ending_only_before_a_line_feed() {
    assert_eq!(split_lines("foo\nbar\n\r\nbaz\r"), vec!["foo", "bar", "", "baz\r"]);
    assert_eq!(split_lines("a\r\nb\r\n"), vec!["a", "b"]);
    assert_eq!(split_lines("a\rb\n"), vec!["a\rb"]);
    assert_eq!(split_lines("a\r\r\n"), vec!["a\r"]);
    assert_eq!(split_lines("\r"), vec!["\r"]);
}

#[test]
fn lines_agree_with_the_standard_library() {
    let samples = [
        "", "\n", "\r\n", "x", "x\n", "x\r", "x\r\n", "\r\r\n\r", "a\nb\r\nc\rd\n\n", "\u{e9}\n\u{221e}",
    ];
    for sample in samples {
        let expected: Vec<String> = sample.lines().map(String::from).collect();
        assert_eq!(split_lines(sample), expected);
    }
}

#[test]
fn characters_of_a_text() {
    assert_eq!(to_chars("a\u{e9}b"), vec!['a', '\u{e9}', 'b']);
    assert_eq!(to_chars(""), Vec::<char>::new());
}
