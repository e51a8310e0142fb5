use trinket::storage::preview::{create_preview, PREVIEW_CHARS, PREVIEW_LINES};

fn std_preview(content: &str) -> String {
    content.lines().take(3).collect::<Vec<_>>().join(" ").chars().take(200).collect()
}

#[test]
fn preview_limits_are_three_lines_and_two_hundred_chars() {
    assert_eq!(PREVIEW_LINES, 3);
    assert_eq!(PREVIEW_CHARS, 200);
}

#[test]
fn preview_of_five_lines_keeps_the_first_three() {
    assert_eq!(create_preview("one\ntwo\nthree\nfour\nfive"), "one two three");
}

#[test]
fn preview_of_one_line_is_that_line() {
    assert_eq!(create_preview("just this"), "just this");
}

#[test]
fn preview_of_two_lines_joins_them() {
    assert_eq!(create_preview("first\nsecond"), "first second");
}

#[test]
fn preview_of_empty_text_is_empty() {
    assert_eq!(create_preview(""), "");
}

#[test]
fn preview_ignores_a_final_line_feed() {
    assert_eq!(create_preview("alpha\n"), "alpha");
    assert_eq!(create_preview("alpha\nbeta\n"), "alpha beta");
}

#[test]
fn preview_keeps_blank_lines_as_lines() {
    assert_eq!(create_preview("a\n\nb\nc"), "a  b");
    assert_eq!(create_preview("\n\n\nlate"), "  ");
    assert_eq!(create_preview("\n"), "");
}

#[test]
fn preview_drops_carriage_return_before_line_feed() {
    assert_eq!(create_preview("a\r\nb\r\nc\r\nd"), "a b c");
    assert_eq!(create_preview("a\r\r\nb"), "a\r b");
}

#[test]
fn preview_keeps_a_lone_carriage_return() {
    assert_eq!(create_preview("a\rb"), "a\rb");
    assert_eq!(create_preview("abc\r"), "abc\r");
    assert_eq!(create_preview("x\nabc\r"), "x abc\r");
}

#[test]
fn preview_is_cut_to_two_hundred_chars() {
    let line = "a".repeat(100);
    let content = format!("{line}\n{line}\n{line}\nrest");
    let expected = format!("{} {}", line, "a".repeat(99));
    let preview = create_preview(&content);
    assert_eq!(preview.chars().count(), 200);
    assert_eq!(preview, expected);
}

#[test]
fn preview_of_exactly_two_hundred_chars_is_whole() {
    let content = "b".repeat(200);
    assert_eq!(create_preview(&content), content);
    let longer = "b".repeat(201);
    assert_eq!(create_preview(&longer), content);
}

#[test]
fn preview_cut_may_fall_on_the_joining_space() {
    let content = format!("{}\nnext", "c".repeat(199));
    assert_eq!(create_preview(&content), format!("{} ", "c".repeat(199)));
    let content = format!("{}\nnext", "c".repeat(200));
    assert_eq!(create_preview(&content), "c".repeat(200));
}

#[test]
fn preview_counts_characters_not_bytes() {
    let content = "é".repeat(250);
    let preview = create_preview(&content);
    assert_eq!(preview.chars().count(), 200);
    assert_eq!(preview, "é".repeat(200));
    assert_eq!(create_preview("日本語\nテキスト"), "日本語 テキスト");
}

#[test]
fn preview_never_exceeds_the_limit() {
    let inputs = [
        "x".repeat(1000),
        format!("{}\n{}\n{}", "p".repeat(150), "q".repeat(150), "r".repeat(150)),
        "short".to_string(),
        "\n".repeat(500),
    ];
    for content in inputs.iter() {
        assert!(create_preview(content).chars().count() <= 200);
    }
}

#[test]
fn preview_agrees_with_the_standard_line_splitting() {
    let inputs = [
        "",
        "\n",
        "\r",
        "\r\n",
        "\n\r",
        "a",
        "a\n",
        "a\r\n",
        "a\r",
        "a\n\n",
        "a\nb\nc\nd\ne",
        "a\r\nb\rc\n\rd",
        "one\r\n\r\ntwo",
        "\r\r\n\r\n\r",
        "tab\there\nnext line  \n  indented",
        "ünïcödé\r\nλ\nж\nlast",
    ];
    for content in inputs.iter() {
        assert_eq!(create_preview(content), std_preview(content), "for {:?}", content);
    }
    let long = format!("{}\r\n{}\n{}", "1".repeat(120), "2".repeat(120), "3".repeat(120));
    assert_eq!(create_preview(&long), std_preview(&long));
}
