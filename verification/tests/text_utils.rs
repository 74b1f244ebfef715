use todo_api::cat::escape_nonprinting;
use todo_api::cat::render_lines;
use todo_api::cat::CatLine;
use todo_api::cat::Config;
use todo_api::echo::handle_escapes;
use todo_api::echo::parse_options;

fn texts(lines: &[CatLine]) -> Vec<&str> {
    lines.iter().map(|l| l.text.as_str()).collect()
}

fn numbers(lines: &[CatLine]) -> Vec<Option<u64>> {
    lines.iter().map(|l| l.number).collect()
}

#[test]
fn config_starts_with_everything_off() {
    let config = Config::new();
    assert!(!config.show_line_numbers);
    assert!(!config.show_nonprinting);
    assert!(!config.squeeze_blank);
}

#[test]
fn escape_nonprinting_marks_control_characters() {
    assert_eq!(escape_nonprinting("plain text"), "plain text");
    assert_eq!(escape_nonprinting("ab\tc"), "ab^Ic");
    assert_eq!(escape_nonprinting("a\nb"), "ab");
    assert_eq!(escape_nonprinting("\x01"), "^A");
    assert_eq!(escape_nonprinting("\x1b[0m"), "^[[0m");
    // delete is a control character: 127 + 64 gives the byte 191
    assert_eq!(escape_nonprinting("\x7f"), "^\u{bf}");
    // printable characters beyond ASCII pass through unchanged
    assert_eq!(escape_nonprinting("caf\u{e9}"), "caf\u{e9}");
}

#[test]
fn handle_escapes_replaces_sequences() {
    assert_eq!(handle_escapes("Hello, World!\\nThis is a test."), "Hello, World!\nThis is a test.");
    assert_eq!(handle_escapes("a\\tb"), "a\tb");
    assert_eq!(handle_escapes("a\\rb"), "a\rb");
    assert_eq!(handle_escapes("a\\vb"), "a\x0Bb");
    assert_eq!(handle_escapes("a\\\\b"), "a\\b");
    assert_eq!(handle_escapes("a\\'b"), "a'b");
    assert_eq!(handle_escapes("a\\\"b"), "a\"b");
    // an unrecognized escape keeps the escaped character
    assert_eq!(handle_escapes("a\\xb"), "axb");
    // a trailing lone backslash stands for itself
    assert_eq!(handle_escapes("a\\"), "a\\");
    assert_eq!(handle_escapes(""), "");
}

#[test]
fn parse_options_strips_leading_escape_flags() {
    let mut args = vec![String::from("-e"), String::from("-e"), String::from("hello")];
    let options = parse_options(&mut args);
    assert!(options.escaped_args);
    assert_eq!(args, vec![String::from("hello")]);

    let mut args = vec![String::from("-x"), String::from("foo")];
    let options = parse_options(&mut args);
    assert!(!options.escaped_args);
    assert_eq!(args, vec![String::from("-x"), String::from("foo")]);

    let mut args = vec![String::from("-")];
    let options = parse_options(&mut args);
    assert!(!options.escaped_args);
    assert_eq!(args, vec![String::from("-")]);

    let mut args = vec![String::from("hello"), String::from("-e")];
    let options = parse_options(&mut args);
    assert!(!options.escaped_args);
    assert_eq!(args.len(), 2);

    let mut args: Vec<String> = Vec::new();
    let options = parse_options(&mut args);
    assert!(!options.escaped_args);
    assert!(args.is_empty());
}

#[test]
fn render_squeezes_repeated_blank_lines() {
    let lines = vec![
        String::from("a"),
        String::from(""),
        String::from("  "),
        String::from("b"),
        String::from(""),
    ];
    let mut config = Config::new();
    config.squeeze_blank = true;
    let out = render_lines(&lines, &config);
    assert_eq!(texts(&out), vec!["a", "", "b", ""]);
}

#[test]
fn render_numbers_emitted_lines_from_one() {
    let lines = vec![String::from("a"), String::from("b")];
    let mut config = Config::new();
    config.show_line_numbers = true;
    let out = render_lines(&lines, &config);
    assert_eq!(texts(&out), vec!["a", "b"]);
    assert_eq!(numbers(&out), vec![Some(1), Some(2)]);

    let plain = render_lines(&lines, &Config::new());
    assert_eq!(numbers(&plain), vec![None, None]);
}

#[test]
fn render_combines_squeezing_numbering_and_escaping() {
    let lines = vec![
        String::from("a\tz"),
        String::from(""),
        String::from(""),
        String::from("b"),
    ];
    let mut config = Config::new();
    config.squeeze_blank = true;
    config.show_line_numbers = true;
    config.show_nonprinting = true;
    let out = render_lines(&lines, &config);
    assert_eq!(texts(&out), vec!["a^Iz", "", "b"]);
    assert_eq!(numbers(&out), vec![Some(1), Some(2), Some(3)]);
}
