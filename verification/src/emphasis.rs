//! What rendering does to the attributes of the output: nothing in HTML, and on
//! a terminal no more than turn standout on where it is off and off where it is on.

use vstd::prelude::*;
use crate::element::{Format, TextElement};
use crate::output::Output;
use crate::present::{closing, entries_output, header, presented};
use crate::render::{element_output, open_after, open_after_element, rendered_from};

verus! {

/// Whether every item is a character: the output touches no attribute.
pub open spec fn is_plain(out: Seq<Output>) -> bool {
    forall|i: int| 0 <= i < out.len() ==> #[trigger] out[i] is Char
}

/// Whether standout is on after one item, given whether it was on before.
pub open spec fn standout_after_item(item: Output, on: bool) -> bool {
    match item {
        Output::Standout => true,
        Output::Reset => false,
        _ => on,
    }
}

/// Whether standout is on after `out`, given whether it was on before.
pub open spec fn standout_after(out: Seq<Output>, on: bool) -> bool
    decreases out.len(),
{
    if out.len() == 0 {
        on
    } else {
        standout_after_item(out.last(), standout_after(out.drop_last(), on))
    }
}

/// Whether an item changes nothing that is already so: standout is not turned on
/// while it is on, attributes are not reset while standout is off, and bold is
/// not used.
pub open spec fn item_fits(item: Output, on: bool) -> bool {
    match item {
        Output::Char(_) => true,
        Output::Standout => !on,
        Output::Reset => on,
        Output::Bold => false,
    }
}

/// Whether `out`, written with standout on or off before it, holds characters
/// and, in turns, `Standout` where it is off and `Reset` where it is on.
pub open spec fn alternates(out: Seq<Output>, on: bool) -> bool
    decreases out.len(),
{
    if out.len() == 0 {
        true
    } else {
        alternates(out.drop_last(), on) && item_fits(
            out.last(),
            standout_after(out.drop_last(), on),
        )
    }
}

/// Plain output joined to plain output is plain.
pub proof fn plain_joins(first: Seq<Output>, second: Seq<Output>)
    requires
        is_plain(first),
        is_plain(second),
    ensures
        is_plain(first + second),
{
    assert forall|i: int| 0 <= i < (first + second).len() implies #[trigger] (first + second)[i]
        is Char by {
        if i < first.len() {
            assert(first[i] is Char);
        } else {
            assert(second[i - first.len()] is Char);
        }
    }
}

/// Plain output leaves standout as it was and fits in either state.
pub proof fn plain_alternates(out: Seq<Output>, on: bool)
    requires
        is_plain(out),
    ensures
        alternates(out, on),
        standout_after(out, on) == on,
    decreases out.len(),
{
    if out.len() > 0 {
        assert(out.last() is Char);
        assert forall|i: int| 0 <= i < out.drop_last().len() implies #[trigger] out.drop_last()[i]
            is Char by {
            assert(out[i] is Char);
        }
        plain_alternates(out.drop_last(), on);
    }
}

/// Output that alternates, joined to output that alternates from where the first
/// left standout, alternates.
pub proof fn alternation_joins(first: Seq<Output>, second: Seq<Output>, on: bool)
    requires
        alternates(first, on),
        alternates(second, standout_after(first, on)),
    ensures
        alternates(first + second, on),
        standout_after(first + second, on) == standout_after(second, standout_after(first, on)),
    decreases second.len(),
{
    if second.len() == 0 {
        assert(first + second =~= first);
    } else {
        alternation_joins(first, second.drop_last(), on);
        assert((first + second).drop_last() =~= first + second.drop_last());
        assert((first + second).last() == second.last());
    }
}

/// In HTML no element touches an attribute: all that it writes is text.
pub proof fn html_element_is_plain(element: TextElement, expand_unknown: bool, open: bool)
    ensures
        is_plain(element_output(element, expand_unknown, Format::HTML, open)),
{
}

/// In HTML an entry's text is rendered as text alone.
pub proof fn html_rendering_is_plain(elements: Seq<TextElement>, expand_unknown: bool, open: bool)
    ensures
        is_plain(rendered_from(elements, expand_unknown, Format::HTML, open)),
    decreases elements.len(),
{
    if elements.len() > 0 {
        html_rendering_is_plain(elements.drop_last(), expand_unknown, open);
        html_element_is_plain(
            elements.last(),
            expand_unknown,
            open_after(elements.drop_last(), open),
        );
        plain_joins(
            rendered_from(elements.drop_last(), expand_unknown, Format::HTML, open),
            element_output(
                elements.last(),
                expand_unknown,
                Format::HTML,
                open_after(elements.drop_last(), open),
            ),
        );
    }
}

/// In HTML the first `count` results are presented as text alone.
pub proof fn html_entries_are_plain(
    entries: Seq<Vec<TextElement>>,
    count: nat,
    expand_unknown: bool,
)
    requires
        count <= entries.len(),
    ensures
        is_plain(entries_output(entries, count, expand_unknown, Format::HTML)),
    decreases count,
{
    if count > 0 {
        html_entries_are_plain(entries, (count - 1) as nat, expand_unknown);
        html_rendering_is_plain(entries[count - 1]@, expand_unknown, false);
        plain_joins(
            header(count, entries.len(), Format::HTML),
            rendered_from(entries[count - 1]@, expand_unknown, Format::HTML, false),
        );
        plain_joins(
            entries_output(entries, (count - 1) as nat, expand_unknown, Format::HTML),
            header(count, entries.len(), Format::HTML) + rendered_from(
                entries[count - 1]@,
                expand_unknown,
                Format::HTML,
                false,
            ),
        );
    }
}

/// In HTML a whole presentation is text alone: attributes of a terminal are used
/// on a terminal only.
pub proof fn html_presentation_is_plain(entries: Seq<Vec<TextElement>>, expand_unknown: bool)
    ensures
        is_plain(presented(entries, expand_unknown, Format::HTML)),
{
    html_entries_are_plain(entries, entries.len(), expand_unknown);
    plain_joins(
        entries_output(entries, entries.len(), expand_unknown, Format::HTML),
        closing(entries.len(), Format::HTML),
    );
}

/// On a terminal an element turns standout on only where it is off, and off
/// only where it is on; after it standout is on exactly if a span is open.
pub proof fn terminal_element_alternates(element: TextElement, expand_unknown: bool, open: bool)
    ensures
        alternates(element_output(element, expand_unknown, Format::Terminal, open), open),
        standout_after(element_output(element, expand_unknown, Format::Terminal, open), open)
            == open_after_element(element, open),
{
    let out = element_output(element, expand_unknown, Format::Terminal, open);
    match element {
        TextElement::BeginDecoration(_) => {
            if !open {
                assert(out.drop_last() =~= Seq::<Output>::empty());
                assert(out.last() == Output::Standout);
                reveal_with_fuel(alternates, 2);
                reveal_with_fuel(standout_after, 2);
            }
        },
        TextElement::EndDecoration => {
            if open {
                assert(out.drop_last() =~= Seq::<Output>::empty());
                assert(out.last() == Output::Reset);
                reveal_with_fuel(alternates, 2);
                reveal_with_fuel(standout_after, 2);
            }
        },
        _ => {
            plain_alternates(out, open);
        },
    }
}

/// On a terminal, emphasis in an entry's text is never nested and never closed
/// where none is open: `Standout` and `Reset` come in turns, and standout is on
/// after the text exactly if it leaves a span open.
pub proof fn terminal_rendering_alternates(
    elements: Seq<TextElement>,
    expand_unknown: bool,
    open: bool,
)
    ensures
        alternates(rendered_from(elements, expand_unknown, Format::Terminal, open), open),
        standout_after(rendered_from(elements, expand_unknown, Format::Terminal, open), open)
            == open_after(elements, open),
    decreases elements.len(),
{
    if elements.len() > 0 {
        let before = elements.drop_last();
        terminal_rendering_alternates(before, expand_unknown, open);
        terminal_element_alternates(elements.last(), expand_unknown, open_after(before, open));
        alternation_joins(
            rendered_from(before, expand_unknown, Format::Terminal, open),
            element_output(
                elements.last(),
                expand_unknown,
                Format::Terminal,
                open_after(before, open),
            ),
            open,
        );
    }
}

} // verus!
