//! Rendering of dictionary entry text for a terminal or as HTML.
//!
//! An entry is a sequence of [`element::TextElement`] values. Rendering turns it
//! into a stream of [`output::Output`] items: characters and attribute changes,
//! which a caller then writes to its terminal or file.
//!
//! - [`charmap`]: the replacement text of vendor-defined character codes.
//! - [`render`]: one entry's text, element by element.
//! - [`present`]: a list of results, each with its header.
//! - [`emphasis`]: what rendering does to the attributes of the output.
//! - [`numeral`]: numbers written as text.
//! - [`command`]: the command line.
//! - [`utf8`]: what is taken on trust of the standard library.

pub mod charmap;
pub mod command;
pub mod element;
pub mod emphasis;
pub mod numeral;
pub mod output;
pub mod present;
pub mod render;
pub mod utf8;
