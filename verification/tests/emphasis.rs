use ep::element::{Format, TextElement};
use ep::output::Output;
use ep::present::present;
use ep::render::print_text;

fn string(s: &str) -> TextElement {
    TextElement::UnicodeString(s.to_string())
}

fn tangled() -> Vec<TextElement> {
    vec![
        TextElement::EndDecoration,
        string("a"),
        TextElement::BeginDecoration(1),
        TextElement::BeginDecoration(2),
        TextElement::CustomCharacter(0xb667),
        TextElement::Newline,
        TextElement::EndDecoration,
        TextElement::EndDecoration,
        TextElement::Indent(4),
        TextElement::BeginDecoration(3),
        TextElement::CustomCharacter(0x0001),
        TextElement::Unsupported("x".to_string()),
    ]
}

#[test]
fn html_rendering_holds_characters_only() {
    let mut out = Vec::new();
    print_text(&tangled(), true, Format::HTML, &mut out);
    assert!(!out.is_empty());
    assert!(out.iter().all(|item| matches!(item, Output::Char(_))));
}

#[test]
fn html_presentation_holds_characters_only() {
    let mut out = Vec::new();
    present(&vec![tangled(), vec![], tangled()], true, Format::HTML, &mut out);
    assert!(out.iter().all(|item| matches!(item, Output::Char(_))));
    let mut out = Vec::new();
    present(&vec![], true, Format::HTML, &mut out);
    assert!(out.iter().all(|item| matches!(item, Output::Char(_))));
}

#[test]
fn terminal_rendering_takes_standout_and_reset_in_turns() {
    let mut out = Vec::new();
    print_text(&tangled(), true, Format::Terminal, &mut out);
    let attributes: Vec<Output> =
        out.iter().copied().filter(|item| !matches!(item, Output::Char(_))).collect();
    assert_eq!(attributes, vec![Output::Standout, Output::Reset, Output::Standout]);
}

#[test]
fn terminal_rendering_never_uses_bold() {
    let mut out = Vec::new();
    print_text(&tangled(), false, Format::Terminal, &mut out);
    assert!(!out.contains(&Output::Bold));
}
