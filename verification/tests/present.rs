use ep::element::{Format, TextElement};
use ep::output::Output;
use ep::present::{present, present_end, present_entry, write_header};

fn text_items(s: &str) -> Vec<Output> {
    s.chars().map(Output::Char).collect()
}

fn entry(s: &str) -> Vec<TextElement> {
    vec![TextElement::UnicodeString(s.to_string()), TextElement::Newline]
}

fn plain(out: &Vec<Output>) -> String {
    let mut s = String::new();
    for item in out {
        match item {
            Output::Char(c) => s.push(*c),
            other => panic!("unexpected item {:?}", other),
        }
    }
    s
}

fn presented(entries: Vec<Vec<TextElement>>, format: Format) -> Vec<Output> {
    let mut out = Vec::new();
    present(&entries, false, format, &mut out);
    out
}

#[test]
fn no_results_on_a_terminal() {
    let out = presented(vec![], Format::Terminal);
    let mut expected = text_items("No results.\n\n");
    expected.push(Output::Reset);
    assert_eq!(out, expected);
}

#[test]
fn no_results_in_html() {
    let out = presented(vec![], Format::HTML);
    assert_eq!(plain(&out), "No results.\n\n");
}

#[test]
fn three_results_on_a_terminal() {
    let out = presented(vec![entry("one"), entry("two"), entry("three")], Format::Terminal);
    let mut expected = Vec::new();
    for (header, body) in [
        ("-- 1 of 3 --\n", "one\n"),
        ("-- 2 of 3 --\n", "two\n"),
        ("-- 3 of 3 --\n", "three\n"),
    ] {
        expected.push(Output::Bold);
        expected.extend(text_items(header));
        expected.push(Output::Reset);
        expected.extend(text_items(body));
    }
    expected.extend(text_items("\n"));
    expected.push(Output::Reset);
    assert_eq!(out, expected);
}

#[test]
fn three_results_in_html() {
    let out = presented(vec![entry("one"), entry("two"), entry("three")], Format::HTML);
    assert_eq!(
        plain(&out),
        "<p><b>Entry 1 of 3</b></p>\none<br>\
         <hr>\n<p><b>Entry 2 of 3</b></p>\ntwo<br>\
         <hr>\n<p><b>Entry 3 of 3</b></p>\nthree<br>\n"
    );
}

#[test]
fn rule_comes_before_every_entry_but_the_first() {
    let out = plain(&presented(vec![entry("a"), entry("b"), entry("c")], Format::HTML));
    assert_eq!(out.matches("<hr>").count(), 2);
    assert!(out.starts_with("<p><b>Entry 1 of 3</b></p>"));
    assert!(out.contains("<hr>\n<p><b>Entry 2 of 3</b></p>"));
    assert!(out.contains("<hr>\n<p><b>Entry 3 of 3</b></p>"));
}

#[test]
fn one_result_has_no_message_and_no_rule() {
    let out = plain(&presented(vec![entry("only")], Format::HTML));
    assert_eq!(out, "<p><b>Entry 1 of 1</b></p>\nonly<br>\n");
    assert!(!out.contains("No results."));
}

#[test]
fn counts_are_written_in_decimal() {
    let entries: Vec<Vec<TextElement>> = (0..12).map(|_| Vec::new()).collect();
    let out = presented(entries, Format::Terminal);
    let lines: String = out
        .iter()
        .filter_map(|item| match item {
            Output::Char(c) => Some(*c),
            _ => None,
        })
        .collect();
    let lines: Vec<&str> = lines.lines().collect();
    assert_eq!(lines[0], "-- 1 of 12 --");
    assert_eq!(lines[9], "-- 10 of 12 --");
    assert_eq!(lines[11], "-- 12 of 12 --");
    assert_eq!(lines.len(), 13);
}

#[test]
fn header_on_a_terminal_is_bold() {
    let mut out = Vec::new();
    write_header(2, 5, Format::Terminal, &mut out);
    let mut expected = vec![Output::Bold];
    expected.extend(text_items("-- 2 of 5 --\n"));
    expected.push(Output::Reset);
    assert_eq!(out, expected);
}

#[test]
fn header_in_html() {
    let mut out = Vec::new();
    write_header(1, 5, Format::HTML, &mut out);
    assert_eq!(plain(&out), "<p><b>Entry 1 of 5</b></p>\n");
    let mut out = Vec::new();
    write_header(2, 5, Format::HTML, &mut out);
    assert_eq!(plain(&out), "<hr>\n<p><b>Entry 2 of 5</b></p>\n");
}

#[test]
fn entry_is_its_header_and_its_text() {
    let mut out = Vec::new();
    present_entry(4, 9, &entry("body"), false, Format::HTML, &mut out);
    assert_eq!(plain(&out), "<hr>\n<p><b>Entry 4 of 9</b></p>\nbody<br>");
}

#[test]
fn entry_passes_the_flag_on() {
    let text = vec![TextElement::CustomCharacter(0x1234)];
    let mut out = Vec::new();
    present_entry(1, 1, &text, true, Format::HTML, &mut out);
    assert_eq!(plain(&out), "<p><b>Entry 1 of 1</b></p>\n<?0x1234>");
    let mut out = Vec::new();
    present_entry(1, 1, &text, false, Format::HTML, &mut out);
    assert_eq!(plain(&out), "<p><b>Entry 1 of 1</b></p>\n");
}

#[test]
fn end_after_results_is_an_empty_line() {
    let mut out = Vec::new();
    present_end(3, Format::HTML, &mut out);
    assert_eq!(out, text_items("\n"));
    let mut out = Vec::new();
    present_end(3, Format::Terminal, &mut out);
    assert_eq!(out, vec![Output::Char('\n'), Output::Reset]);
}

#[test]
fn open_span_is_reset_at_the_end_on_a_terminal() {
    let entries = vec![vec![TextElement::BeginDecoration(0), TextElement::UnicodeString("x".to_string())]];
    let out = presented(entries, Format::Terminal);
    assert_eq!(out.last(), Some(&Output::Reset));
}

#[test]
fn presenting_is_entry_by_entry_then_the_end() {
    let entries = vec![entry("a"), vec![TextElement::Indent(2)], entry("c")];
    for format in [Format::Terminal, Format::HTML] {
        let mut whole = Vec::new();
        present(&entries, true, format, &mut whole);
        let mut pieces = Vec::new();
        for (i, text) in entries.iter().enumerate() {
            present_entry(i + 1, entries.len(), text, true, format, &mut pieces);
        }
        present_end(entries.len(), format, &mut pieces);
        assert_eq!(whole, pieces);
    }
}
