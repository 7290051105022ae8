//! Presenting the results of a search: a header and the entry's text for each
//! result, then the closing lines.

use vstd::prelude::*;
use crate::element::{Format, TextElement};
use crate::numeral::{decimal, write_decimal};
use crate::output::{text, write_str, Output};
use crate::render::{print_text, rendered};

verus! {

/// The header of the result at `position`, counted from one, out of `total`.
///
/// On a terminal it is the line `-- position of total --` in bold. In HTML it is
/// the paragraph `Entry position of total` in bold, with a rule before it for
/// every result but the first.
pub open spec fn header(position: nat, total: nat, format: Format) -> Seq<Output> {
    match format {
        Format::Terminal => seq![Output::Bold] + text(
            "-- "@ + decimal(position) + " of "@ + decimal(total) + " --\n"@,
        ) + seq![Output::Reset],
        Format::HTML => text(
            if position > 1 {
                "<hr>\n"@
            } else {
                Seq::empty()
            },
        ) + text("<p><b>Entry "@ + decimal(position) + " of "@ + decimal(total) + "</b></p>\n"@),
    }
}

/// What one result writes: its header, then its text.
pub open spec fn entry_output(
    position: nat,
    total: nat,
    elements: Seq<TextElement>,
    expand_unknown: bool,
    format: Format,
) -> Seq<Output> {
    header(position, total, format) + rendered(elements, expand_unknown, format)
}

/// What the first `count` results write, one after the other.
pub open spec fn entries_output(
    entries: Seq<Vec<TextElement>>,
    count: nat,
    expand_unknown: bool,
    format: Format,
) -> Seq<Output>
    recommends
        count <= entries.len(),
    decreases count,
{
    if count == 0 {
        Seq::empty()
    } else {
        entries_output(entries, (count - 1) as nat, expand_unknown, format) + entry_output(
            count,
            entries.len(),
            entries[count - 1]@,
            expand_unknown,
            format,
        )
    }
}

/// What is written after the last result: the message for an empty list of
/// results, an empty line, and on a terminal the return to default attributes.
pub open spec fn closing(total: nat, format: Format) -> Seq<Output> {
    text(
        if total == 0 {
            "No results.\n"@
        } else {
            Seq::empty()
        },
    ) + text("\n"@) + match format {
        Format::Terminal => seq![Output::Reset],
        Format::HTML => Seq::empty(),
    }
}

/// What presenting a list of results writes.
pub open spec fn presented(entries: Seq<Vec<TextElement>>, expand_unknown: bool, format: Format) -> Seq<
    Output,
> {
    entries_output(entries, entries.len(), expand_unknown, format) + closing(entries.len(), format)
}

/// An empty list of results writes the message, the empty line and nothing of an
/// entry: no header, no rule.
pub proof fn no_results_output(entries: Seq<Vec<TextElement>>, expand_unknown: bool, format: Format)
    requires
        entries.len() == 0,
    ensures
        presented(entries, expand_unknown, format) == text("No results.\n"@) + text("\n"@)
            + match format {
            Format::Terminal => seq![Output::Reset],
            Format::HTML => Seq::empty(),
        },
{
    assert(presented(entries, expand_unknown, format) =~= closing(0, format));
}

/// Writes the header of the result at `position`, counted from one, out of `total`.
pub fn write_header(position: usize, total: usize, format: Format, out: &mut Vec<Output>)
    ensures
        final(out)@ == old(out)@ + header(position as nat, total as nat, format),
{
    match format {
        Format::Terminal => {
            out.push(Output::Bold);
            write_str(out, "-- ");
            write_decimal(out, position);
            write_str(out, " of ");
            write_decimal(out, total);
            write_str(out, " --\n");
            out.push(Output::Reset);
        },
        Format::HTML => {
            if position > 1 {
                write_str(out, "<hr>\n");
            }
            write_str(out, "<p><b>Entry ");
            write_decimal(out, position);
            write_str(out, " of ");
            write_decimal(out, total);
            write_str(out, "</b></p>\n");
        },
    }
    assert(out@ =~= old(out)@ + header(position as nat, total as nat, format));
}

/// Writes one result: its header, then its text.
pub fn present_entry(
    position: usize,
    total: usize,
    text: &Vec<TextElement>,
    expand_unknown: bool,
    format: Format,
    out: &mut Vec<Output>,
)
    ensures
        final(out)@ == old(out)@ + entry_output(
            position as nat,
            total as nat,
            text@,
            expand_unknown,
            format,
        ),
{
    write_header(position, total, format, out);
    print_text(text, expand_unknown, format, out);
    assert(out@ =~= old(out)@ + entry_output(
        position as nat,
        total as nat,
        text@,
        expand_unknown,
        format,
    ));
}

/// Writes what follows the last of `total` results.
pub fn present_end(total: usize, format: Format, out: &mut Vec<Output>)
    ensures
        final(out)@ == old(out)@ + closing(total as nat, format),
{
    if total == 0 {
        write_str(out, "No results.\n");
    }
    write_str(out, "\n");
    match format {
        Format::Terminal => out.push(Output::Reset),
        Format::HTML => {},
    }
    assert(out@ =~= old(out)@ + closing(total as nat, format));
}

/// Presents a list of results, each given by its entry's text.
pub fn present(
    entries: &Vec<Vec<TextElement>>,
    expand_unknown: bool,
    format: Format,
    out: &mut Vec<Output>,
)
    ensures
        final(out)@ == old(out)@ + presented(entries@, expand_unknown, format),
{
    let total = entries.len();
    let mut i: usize = 0;
    assert(out@ =~= old(out)@ + entries_output(entries@, 0, expand_unknown, format));
    while i < total
        invariant
            total == entries.len(),
            i <= total,
            out@ == old(out)@ + entries_output(entries@, i as nat, expand_unknown, format),
        decreases total - i,
    {
        present_entry(i + 1, total, &entries[i], expand_unknown, format, out);
        assert(out@ =~= old(out)@ + entries_output(
            entries@,
            (i + 1) as nat,
            expand_unknown,
            format,
        ));
        i += 1;
    }
    present_end(total, format, out);
    assert(out@ =~= old(out)@ + presented(entries@, expand_unknown, format));
}

} // verus!
