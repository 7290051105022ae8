//! The elements of an entry's text, and the formats they can be rendered in.

use vstd::prelude::*;

verus! {

/// Where the rendered text is going.
#[derive(Debug, Copy, Clone, PartialEq, Eq)]
pub enum Format {
    /// A terminal: emphasis is an attribute of the terminal.
    Terminal,
    /// An HTML document: emphasis and line breaks are tags.
    HTML,
}

/// One element of an entry's text.
#[derive(Debug, Clone, PartialEq, Eq)]
pub enum TextElement {
    /// Literal text.
    UnicodeString(String),
    /// A vendor-defined character, by its 16-bit code.
    CustomCharacter(u16),
    /// A line break.
    Newline,
    /// Leading whitespace of the given width.
    Indent(u16),
    /// A hint that an implied line break is suppressed. Rendering ignores it.
    NoNewline(bool),
    /// The start of an emphasized span. The kind of decoration is not rendered.
    BeginDecoration(u16),
    /// The end of an emphasized span.
    EndDecoration,
    /// Markup that has no rendering, by its tag.
    Unsupported(String),
}

} // verus!
