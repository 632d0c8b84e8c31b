use fervim::text::{chars_of, lines_of, spells, string_of, text_of};

fn split(content: &str) -> Vec<String> {
    lines_of(content).iter().map(string_of).collect()
}

fn join(lines: &[&str]) -> String {
    let table: Vec<Vec<char>> = lines.iter().map(|l| l.chars().collect()).collect();
    text_of(&table)
}

fn std_pieces(content: &str) -> Vec<String> {
    content.split('\n').map(|l| l.to_string()).collect()
}

#[test]
fn chars_and_strings_convert_both_ways() {
    assert_eq!(chars_of("héllo"), vec!['h', 'é', 'l', 'l', 'o']);
    assert_eq!(chars_of(""), Vec::<char>::new());
    assert_eq!(string_of(&vec!['a', 'ß', 'c']), "aßc");
    assert_eq!(string_of(&Vec::new()), "");
}

#[test]
fn spells_compares_whole_words() {
    assert!(spells(&vec!['w', 'q'], "wq"));
    assert!(!spells(&vec!['w'], "wq"));
    assert!(!spells(&vec!['w', 'q', '!'], "wq"));
    assert!(!spells(&vec!['w', 'x'], "wq"));
    assert!(spells(&Vec::new(), ""));
}

#[test]
fn empty_content_is_one_empty_line() {
    assert_eq!(split(""), vec![""]);
}

#[test]
fn lines_end_at_line_feeds() {
    assert_eq!(split("a"), vec!["a"]);
    assert_eq!(split("a\nb"), vec!["a", "b"]);
    assert_eq!(split("a\n\nb"), vec!["a", "", "b"]);
    assert_eq!(split("\na"), vec!["", "a"]);
}

#[test]
fn line_feed_at_the_end_leaves_an_empty_last_line() {
    assert_eq!(split("a\n"), vec!["a", ""]);
    assert_eq!(split("a\nb\n"), vec!["a", "b", ""]);
    assert_eq!(split("\n"), vec!["", ""]);
    assert_eq!(split("\n\n"), vec!["", "", ""]);
    assert_eq!(split("a\n\n"), vec!["a", "", ""]);
}

#[test]
fn carriage_returns_stay_in_their_lines() {
    assert_eq!(split("a\r\nb\r\n"), vec!["a\r", "b\r", ""]);
    assert_eq!(split("a\rb\nc"), vec!["a\rb", "c"]);
    assert_eq!(split("\r"), vec!["\r"]);
    assert_eq!(split("a\nb\r"), vec!["a", "b\r"]);
}

#[test]
fn splitting_agrees_with_the_standard_library() {
    let samples = [
        "",
        "\n",
        "\r",
        "\r\n",
        "one",
        "one\n",
        "one\r\n",
        "one\ntwo",
        "one\r\ntwo\r\n",
        "one\n\n\ntwo\n\n",
        "\n\none",
        "a\rb\r\nc\r",
        "tabs\tand spaces \n  indented\n",
        "ünïcödé\nλ\n",
        "\r\r\n\r\n\r",
    ];
    for sample in samples {
        assert_eq!(split(sample), std_pieces(sample), "content {:?}", sample);
    }
}

#[test]
fn joining_puts_a_line_feed_between_lines() {
    assert_eq!(join(&[]), "");
    assert_eq!(join(&[""]), "");
    assert_eq!(join(&["a"]), "a");
    assert_eq!(join(&["a", "b"]), "a\nb");
    assert_eq!(join(&["a", "", "b"]), "a\n\nb");
    assert_eq!(join(&["a", ""]), "a\n");
    assert_eq!(join(&["", ""]), "\n");
}

#[test]
fn joining_agrees_with_the_standard_library() {
    let samples: [&[&str]; 5] =
        [&["x"], &["x", "y", "z"], &["", "", ""], &["é", "ü"], &["long line here", ""]];
    for sample in samples {
        assert_eq!(join(sample), sample.join("\n"));
    }
}

#[test]
fn saved_text_reopens_to_the_same_lines() {
    let buffers: [&[&str]; 10] = [
        &[""],
        &["one"],
        &["one", "two"],
        &["", "x"],
        &["a", "", "", "b"],
        &["tab\t", " lead", "end\r"],
        &["a", ""],
        &["", ""],
        &["a", "", ""],
        &["cr\r", "mid\r", ""],
    ];
    for lines in buffers {
        assert_eq!(split(&join(lines)), lines.to_vec());
    }
}

#[test]
fn content_splits_and_joins_back_unchanged() {
    for content in ["", "a", "a\n", "a\r\nb\r\n", "\n\n", "x\n\ny", "end\r"] {
        let table = lines_of(content);
        assert_eq!(text_of(&table), content);
    }
}
