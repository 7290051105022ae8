//! Rendering the elements of one entry, in order, onto an output stream.

use vstd::prelude::*;
use crate::charmap::{convert_custom_character, replacement};
use crate::element::{Format, TextElement};
use crate::numeral::{hex4, write_hex4};
use crate::output::{spaces, text, text_of_concat, write_spaces, write_str, Output};

verus! {

/// What stands for a line break.
pub open spec fn newline_token(format: Format) -> Seq<Output> {
    match format {
        Format::Terminal => text("\n"@),
        Format::HTML => text("<br>"@),
    }
}

/// What opens an emphasized span.
pub open spec fn begin_token(format: Format) -> Seq<Output> {
    match format {
        Format::Terminal => seq![Output::Standout],
        Format::HTML => text("<b>"@),
    }
}

/// What closes an emphasized span.
pub open spec fn end_token(format: Format) -> Seq<Output> {
    match format {
        Format::Terminal => seq![Output::Reset],
        Format::HTML => text("</b>"@),
    }
}

/// The diagnostic written for a code without a replacement.
pub open spec fn unknown_token(code: u16) -> Seq<Output> {
    text("<?0x"@) + text(hex4(code)) + text(">"@)
}

/// What a vendor-defined character is written as.
pub open spec fn character_output(code: u16, expand_unknown: bool) -> Seq<Output> {
    match replacement(code) {
        Some(s) => text(s),
        None => if expand_unknown {
            unknown_token(code)
        } else {
            Seq::empty()
        },
    }
}

/// What one element writes, given whether an emphasized span is open before it.
pub open spec fn element_output(
    element: TextElement,
    expand_unknown: bool,
    format: Format,
    open: bool,
) -> Seq<Output> {
    match element {
        TextElement::UnicodeString(s) => text(s@),
        TextElement::CustomCharacter(code) => character_output(code, expand_unknown),
        TextElement::Newline => newline_token(format),
        TextElement::Indent(n) => spaces(n as nat),
        TextElement::NoNewline(_) => Seq::empty(),
        TextElement::BeginDecoration(_) => if open {
            Seq::empty()
        } else {
            begin_token(format)
        },
        TextElement::EndDecoration => if open {
            end_token(format)
        } else {
            Seq::empty()
        },
        TextElement::Unsupported(_) => Seq::empty(),
    }
}

/// Whether an emphasized span is open after one element.
pub open spec fn open_after_element(element: TextElement, open: bool) -> bool {
    match element {
        TextElement::BeginDecoration(_) => true,
        TextElement::EndDecoration => false,
        _ => open,
    }
}

/// Whether an emphasized span is open after `elements`, read in order.
pub open spec fn open_after(elements: Seq<TextElement>, open: bool) -> bool
    decreases elements.len(),
{
    if elements.len() == 0 {
        open
    } else {
        open_after_element(elements.last(), open_after(elements.drop_last(), open))
    }
}

/// What `elements` write, read in order, given whether a span is open before them.
pub open spec fn rendered_from(
    elements: Seq<TextElement>,
    expand_unknown: bool,
    format: Format,
    open: bool,
) -> Seq<Output>
    decreases elements.len(),
{
    if elements.len() == 0 {
        Seq::empty()
    } else {
        rendered_from(elements.drop_last(), expand_unknown, format, open) + element_output(
            elements.last(),
            expand_unknown,
            format,
            open_after(elements.drop_last(), open),
        )
    }
}

/// What an entry's text writes: its elements in order, with no span open at the start.
pub open spec fn rendered(elements: Seq<TextElement>, expand_unknown: bool, format: Format) -> Seq<
    Output,
> {
    rendered_from(elements, expand_unknown, format, false)
}

/// Rendering reads its elements in order and carries nothing along but whether a
/// span is open: a text in two parts writes what the parts write one after the other.
pub proof fn rendering_splits(
    first: Seq<TextElement>,
    second: Seq<TextElement>,
    expand_unknown: bool,
    format: Format,
    open: bool,
)
    ensures
        open_after(first + second, open) == open_after(second, open_after(first, open)),
        rendered_from(first + second, expand_unknown, format, open) == rendered_from(
            first,
            expand_unknown,
            format,
            open,
        ) + rendered_from(second, expand_unknown, format, open_after(first, open)),
    decreases second.len(),
{
    if second.len() == 0 {
        assert(first + second =~= first);
        assert(rendered_from(first, expand_unknown, format, open) + Seq::<Output>::empty()
            =~= rendered_from(first, expand_unknown, format, open));
    } else {
        let shorter = second.drop_last();
        rendering_splits(first, shorter, expand_unknown, format, open);
        assert((first + second).drop_last() =~= first + shorter);
        assert((first + second).last() == second.last());
        let head = rendered_from(first, expand_unknown, format, open);
        let middle = rendered_from(shorter, expand_unknown, format, open_after(first, open));
        let tail = element_output(
            second.last(),
            expand_unknown,
            format,
            open_after(first + shorter, open),
        );
        assert((head + middle) + tail =~= head + (middle + tail));
    }
}

/// An end of decoration where no span is open writes nothing and changes nothing
/// of what is written after it: the text renders as it does without that element.
pub proof fn unmatched_end_is_ignored(
    before: Seq<TextElement>,
    after: Seq<TextElement>,
    expand_unknown: bool,
    format: Format,
)
    requires
        !open_after(before, false),
    ensures
        rendered(before + seq![TextElement::EndDecoration] + after, expand_unknown, format)
            == rendered(before + after, expand_unknown, format),
{
    let end = seq![TextElement::EndDecoration];
    reveal_with_fuel(rendered_from, 2);
    reveal_with_fuel(open_after, 2);
    assert(end.drop_last() =~= Seq::<TextElement>::empty());
    assert(end.last() == TextElement::EndDecoration);
    assert(rendered_from(end, expand_unknown, format, false) =~= Seq::<Output>::empty());
    assert(!open_after(end, false));
    rendering_splits(before, end, expand_unknown, format, false);
    rendering_splits(before + end, after, expand_unknown, format, false);
    rendering_splits(before, after, expand_unknown, format, false);
    assert(rendered_from(before, expand_unknown, format, false) + Seq::<Output>::empty()
        =~= rendered_from(before, expand_unknown, format, false));
}

/// A code that has a replacement is written as that replacement, whether or not
/// unknown codes are expanded.
pub proof fn mapped_code_ignores_flag(code: u16, expand_unknown: bool, format: Format, open: bool)
    requires
        replacement(code) is Some,
    ensures
        element_output(TextElement::CustomCharacter(code), expand_unknown, format, open) == text(
            replacement(code)->0,
        ),
{
}

/// A code without a replacement is dropped, or, where unknown codes are expanded,
/// written as `<?0x`, its four lowercase hexadecimal digits and `>`.
pub proof fn unknown_code_output(code: u16, expand_unknown: bool, format: Format, open: bool)
    requires
        replacement(code) is None,
    ensures
        !expand_unknown ==> element_output(
            TextElement::CustomCharacter(code),
            expand_unknown,
            format,
            open,
        ) == Seq::<Output>::empty(),
        expand_unknown ==> element_output(
            TextElement::CustomCharacter(code),
            expand_unknown,
            format,
            open,
        ) == text(seq!['<', '?', '0', 'x'] + hex4(code) + seq!['>']),
{
    reveal_strlit("<?0x");
    reveal_strlit(">");
    assert("<?0x"@ =~= seq!['<', '?', '0', 'x']);
    assert(">"@ =~= seq!['>']);
    text_of_concat(seq!['<', '?', '0', 'x'], hex4(code));
    text_of_concat(seq!['<', '?', '0', 'x'] + hex4(code), seq!['>']);
}

/// An indent of `n` writes `n` items, each of them a space, in either format.
pub proof fn indent_is_spaces(n: u16, expand_unknown: bool, format: Format, open: bool)
    ensures
        element_output(TextElement::Indent(n), expand_unknown, format, open).len() == n,
        forall|i: int|
            0 <= i < n ==> element_output(TextElement::Indent(n), expand_unknown, format, open)[i]
                == Output::Char(' '),
{
}

/// Writes one element and tells whether an emphasized span is open after it.
pub fn render_element(
    element: &TextElement,
    expand_unknown: bool,
    format: Format,
    open: bool,
    out: &mut Vec<Output>,
) -> (now_open: bool)
    ensures
        final(out)@ == old(out)@ + element_output(*element, expand_unknown, format, open),
        now_open == open_after_element(*element, open),
{
    match element {
        TextElement::UnicodeString(s) => {
            write_str(out, s.as_str());
            open
        },
        TextElement::CustomCharacter(code) => {
            match convert_custom_character(*code) {
                Some(s) => {
                    write_str(out, s);
                },
                None => {
                    if expand_unknown {
                        write_str(out, "<?0x");
                        write_hex4(out, *code);
                        write_str(out, ">");
                    }
                },
            }
            assert(out@ =~= old(out)@ + character_output(*code, expand_unknown));
            open
        },
        TextElement::Newline => {
            match format {
                Format::Terminal => write_str(out, "\n"),
                Format::HTML => write_str(out, "<br>"),
            }
            open
        },
        TextElement::Indent(n) => {
            write_spaces(out, *n);
            open
        },
        TextElement::NoNewline(_) => {
            assert(out@ =~= old(out)@ + Seq::<Output>::empty());
            open
        },
        TextElement::BeginDecoration(_) => {
            if !open {
                match format {
                    Format::Terminal => out.push(Output::Standout),
                    Format::HTML => write_str(out, "<b>"),
                }
            }
            assert(out@ =~= old(out)@ + element_output(*element, expand_unknown, format, open));
            true
        },
        TextElement::EndDecoration => {
            if open {
                match format {
                    Format::Terminal => out.push(Output::Reset),
                    Format::HTML => write_str(out, "</b>"),
                }
            }
            assert(out@ =~= old(out)@ + element_output(*element, expand_unknown, format, open));
            false
        },
        TextElement::Unsupported(_) => {
            assert(out@ =~= old(out)@ + Seq::<Output>::empty());
            open
        },
    }
}

/// Writes an entry's text: every element in order, in one pass.
pub fn print_text(
    text: &Vec<TextElement>,
    expand_unknown: bool,
    format: Format,
    out: &mut Vec<Output>,
)
    ensures
        final(out)@ == old(out)@ + rendered(text@, expand_unknown, format),
{
    let mut open = false;
    let mut i: usize = 0;
    assert(out@ =~= old(out)@ + rendered(text@.take(0), expand_unknown, format));
    while i < text.len()
        invariant
            i <= text.len(),
            out@ == old(out)@ + rendered(text@.take(i as int), expand_unknown, format),
            open == open_after(text@.take(i as int), false),
        decreases text.len() - i,
    {
        let ghost before = out@;
        assert(text@.take(i + 1).drop_last() =~= text@.take(i as int));
        assert(text@.take(i + 1).last() == text@[i as int]);
        open = render_element(&text[i], expand_unknown, format, open, out);
        assert(out@ =~= old(out)@ + rendered(text@.take(i + 1), expand_unknown, format));
        i += 1;
    }
    assert(text@.take(i as int) =~= text@);
}

} // verus!
