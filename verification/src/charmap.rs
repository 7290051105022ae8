//! Replacement text for vendor-defined character codes.

use vstd::prelude::*;

verus! {

/// The substitution table: each entry pairs a code with the text that stands for it.
pub open spec fn table() -> Seq<(u16, Seq<char>)> {
    seq![
        (0xb667u16, "[ローマ字]"@),
        (0xb65eu16, "▶ "@),
        (0xb66bu16, "◧"@),
        (0xa239u16, "ū"@),
    ]
}

/// The text of the first entry of `entries` whose code is `code`, if there is one.
pub open spec fn find(entries: Seq<(u16, Seq<char>)>, code: u16) -> Option<Seq<char>>
    decreases entries.len(),
{
    if entries.len() == 0 {
        None
    } else if entries[0].0 == code {
        Some(entries[0].1)
    } else {
        find(entries.drop_first(), code)
    }
}

/// What a code is replaced by: `None` for a code that the table does not know.
pub open spec fn replacement(code: u16) -> Option<Seq<char>> {
    if code == 0xb667 {
        Some("[ローマ字]"@)
    } else if code == 0xb65e {
        Some("▶ "@)
    } else if code == 0xb66b {
        Some("◧"@)
    } else if code == 0xa239 {
        Some("ū"@)
    } else {
        None
    }
}

/// The view of an optional string slice.
pub open spec fn text_of(found: Option<&str>) -> Option<Seq<char>> {
    match found {
        Some(s) => Some(s@),
        None => None,
    }
}

/// The views of the entries of a table held in memory.
pub open spec fn entries_of(entries: Seq<(u16, &'static str)>) -> Seq<(u16, Seq<char>)> {
    Seq::new(entries.len(), |i: int| (entries[i].0, entries[i].1@))
}

/// Searching the table gives exactly the documented replacement of every code.
pub proof fn table_holds_replacements(code: u16)
    ensures
        find(table(), code) == replacement(code),
{
    reveal_with_fuel(find, 5);
}

/// The substitution table as data.
pub fn custom_character_table() -> (entries: Vec<(u16, &'static str)>)
    ensures
        entries_of(entries@) == table(),
{
    let mut entries: Vec<(u16, &'static str)> = Vec::new();
    entries.push((0xb667u16, "[ローマ字]"));
    entries.push((0xb65eu16, "▶ "));
    entries.push((0xb66bu16, "◧"));
    entries.push((0xa239u16, "ū"));
    assert(entries_of(entries@) =~= table());
    entries
}

/// Looks `code` up in `entries`: the first entry with that code decides.
pub fn lookup(entries: &Vec<(u16, &'static str)>, code: u16) -> (found: Option<&'static str>)
    ensures
        text_of(found) == find(entries_of(entries@), code),
{
    let mut i: usize = 0;
    assert(entries_of(entries@).skip(0) =~= entries_of(entries@));
    while i < entries.len()
        invariant
            i <= entries.len(),
            find(entries_of(entries@), code) == find(entries_of(entries@).skip(i as int), code),
        decreases entries.len() - i,
    {
        let ghost rest = entries_of(entries@).skip(i as int);
        assert(rest.drop_first() == entries_of(entries@).skip(i + 1));
        assert(rest[0] == entries_of(entries@)[i as int]);
        if entries[i].0 == code {
            return Some(entries[i].1);
        }
        i += 1;
    }
    None
}

/// The replacement text of a vendor-defined character code, or `None` for an
/// unknown code. The answer depends on the code alone.
pub fn convert_custom_character(cp: u16) -> (found: Option<&'static str>)
    ensures
        text_of(found) == replacement(cp),
{
    let entries = custom_character_table();
    proof {
        table_holds_replacements(cp);
    }
    lookup(&entries, cp)
}

} // verus!
