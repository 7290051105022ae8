//! The stream that rendering writes: characters and attribute changes.

use vstd::prelude::*;

verus! {

/// One item written to the sink.
#[derive(Clone, Copy, Debug, PartialEq, Eq)]
pub enum Output {
    /// A character of text.
    Char(char),
    /// Turn the terminal's standout attribute on.
    Standout,
    /// Turn the terminal's bold attribute on.
    Bold,
    /// Set the terminal's attributes back to their defaults.
    Reset,
}

/// The output item that carries the character `c`.
pub open spec fn glyph(c: char) -> Output {
    Output::Char(c)
}

/// The characters of `s` as output items, in order.
pub open spec fn text(s: Seq<char>) -> Seq<Output> {
    Seq::new(s.len(), |i: int| glyph(s[i]))
}

/// `n` space characters.
pub open spec fn spaces(n: nat) -> Seq<Output> {
    Seq::new(n, |i: int| Output::Char(' '))
}

/// Text written piece by piece is the text written at once.
pub proof fn text_of_concat(a: Seq<char>, b: Seq<char>)
    ensures
        text(a + b) == text(a) + text(b),
{
    assert(text(a + b) =~= text(a) + text(b));
}

/// Appends the characters of `s`.
pub fn write_str(out: &mut Vec<Output>, s: &str)
    ensures
        final(out)@ == old(out)@ + text(s@),
{
    let n = s.unicode_len();
    let mut i: usize = 0;
    while i < n
        invariant
            n == s@.len(),
            i <= n,
            out@ == old(out)@ + text(s@.take(i as int)),
        decreases n - i,
    {
        let c = s.get_char(i);
        out.push(Output::Char(c));
        assert(out@ =~= old(out)@ + text(s@.take(i + 1)));
        i += 1;
    }
    assert(s@.take(n as int) =~= s@);
}

/// Appends `n` space characters.
pub fn write_spaces(out: &mut Vec<Output>, n: u16)
    ensures
        final(out)@ == old(out)@ + spaces(n as nat),
{
    let mut i: u16 = 0;
    while i < n
        invariant
            i <= n,
            out@ == old(out)@ + spaces(i as nat),
        decreases n - i,
    {
        out.push(Output::Char(' '));
        assert(out@ =~= old(out)@ + spaces((i + 1) as nat));
        i += 1;
    }
}

} // verus!
