//! Reading the command line: which book, which query, which options.

use vstd::prelude::*;
use vstd::string::StringSliceAdditionalSpecFns;
use vstd::utf8::{decode_utf8, encode_utf8, encode_utf8_decode_utf8, valid_utf8};
use crate::element::Format;

verus! {

/// The index of a book that a search goes through.
#[derive(Debug, Copy, Clone, PartialEq, Eq)]
pub enum Index {
    /// Words as they are written.
    WordAsIs,
}

/// What the command line asks for.
#[derive(Debug, Clone, PartialEq, Eq)]
pub enum Command {
    /// Search an index for a query.
    Search(Index, String),
}

/// A command line that asks for something.
#[derive(Debug, Clone, PartialEq, Eq)]
pub struct Arguments {
    /// The path of the book, as the bytes it was given in.
    pub book_path: Vec<u8>,
    /// Whether a character code without a replacement is written out.
    pub expand_unknown: bool,
    /// What to do.
    pub command: Command,
    /// The format of the output.
    pub format: Format,
}

/// Why a command line cannot be used.
#[derive(Debug, Copy, Clone, PartialEq, Eq)]
pub enum ArgumentError {
    /// `-b` is the last argument: the path that it announces is missing.
    MissingOptionValue,
    /// The query is not UTF-8.
    InvalidQuery,
    /// No book path was given, and there is none to fall back on.
    NoBookPath,
}

/// The mathematical content of [`Arguments`].
pub struct Request {
    pub book_path: Seq<u8>,
    pub expand_unknown: bool,
    pub index: Index,
    pub query: Seq<char>,
    pub format: Format,
}

impl View for Arguments {
    type V = Request;

    open spec fn view(&self) -> Request {
        match self.command {
            Command::Search(index, query) => Request {
                book_path: self.book_path@,
                expand_unknown: self.expand_unknown,
                index,
                query: query@,
                format: self.format,
            },
        }
    }
}

/// What has been read of a command line so far.
pub struct Seen {
    pub book_path: Option<Seq<u8>>,
    pub query: Option<Seq<u8>>,
    pub expand_unknown: bool,
    pub format: Format,
}

/// Before the first argument: nothing given, the defaults in force.
pub open spec fn nothing_seen() -> Seen {
    Seen { book_path: None, query: None, expand_unknown: false, format: Format::Terminal }
}

/// Reads the arguments from position `from` on.
///
/// `-b` takes the argument after it, whatever that is, as the book path.
/// `--expand-unknown-characters` and `--html` set their option. Any other
/// argument is the query and has to be UTF-8. Of a path or a query given twice,
/// the later one counts.
pub open spec fn scan(args: Seq<Vec<u8>>, from: int, seen: Seen) -> Result<Seen, ArgumentError>
    recommends
        0 <= from,
    decreases args.len() - from,
{
    if from < 0 || from >= args.len() {
        Ok(seen)
    } else if args[from]@ == "-b".spec_bytes() {
        if from + 1 < args.len() {
            scan(args, from + 2, Seen { book_path: Some(args[from + 1]@), ..seen })
        } else {
            Err(ArgumentError::MissingOptionValue)
        }
    } else if args[from]@ == "--expand-unknown-characters".spec_bytes() {
        scan(args, from + 1, Seen { expand_unknown: true, ..seen })
    } else if args[from]@ == "--html".spec_bytes() {
        scan(args, from + 1, Seen { format: Format::HTML, ..seen })
    } else if valid_utf8(args[from]@) {
        scan(args, from + 1, Seen { query: Some(args[from]@), ..seen })
    } else {
        Err(ArgumentError::InvalidQuery)
    }
}

/// The view of an optional byte string.
pub open spec fn bytes_of(path: Option<Vec<u8>>) -> Option<Seq<u8>> {
    match path {
        Some(p) => Some(p@),
        None => None,
    }
}

/// What a command line, without the program's name, asks for.
///
/// The book path is the one given with `-b`, else `fallback`; with neither the
/// command line is refused, even if it holds no query. With a book path and no
/// query it asks for nothing: `Ok(None)`.
pub open spec fn parsed(args: Seq<Vec<u8>>, fallback: Option<Seq<u8>>) -> Result<
    Option<Request>,
    ArgumentError,
> {
    match scan(args, 0, nothing_seen()) {
        Err(e) => Err(e),
        Ok(seen) => {
            let book_path = if seen.book_path is Some {
                seen.book_path
            } else {
                fallback
            };
            match (book_path, seen.query) {
                (None, _) => Err(ArgumentError::NoBookPath),
                (Some(_), None) => Ok(None),
                (Some(path), Some(query)) => Ok(
                    Some(
                        Request {
                            book_path: path,
                            expand_unknown: seen.expand_unknown,
                            index: Index::WordAsIs,
                            query: decode_utf8(query),
                            format: seen.format,
                        },
                    ),
                ),
            }
        },
    }
}

/// The view of what `parse_command` returns.
pub open spec fn outcome_of(result: Result<Option<Arguments>, ArgumentError>) -> Result<
    Option<Request>,
    ArgumentError,
> {
    match result {
        Ok(Some(arguments)) => Ok(Some(arguments@)),
        Ok(None) => Ok(None),
        Err(e) => Err(e),
    }
}

/// Whether two byte strings are the same.
pub fn same_bytes(a: &[u8], b: &[u8]) -> (same: bool)
    ensures
        same == (a@ == b@),
{
    if a.len() != b.len() {
        return false;
    }
    let mut i: usize = 0;
    while i < a.len()
        invariant
            a.len() == b.len(),
            i <= a.len(),
            a@.take(i as int) == b@.take(i as int),
        decreases a.len() - i,
    {
        if a[i] != b[i] {
            return false;
        }
        assert(a@.take(i + 1) =~= a@.take(i as int).push(a@[i as int]));
        assert(b@.take(i + 1) =~= b@.take(i as int).push(b@[i as int]));
        i += 1;
    }
    assert(a@.take(i as int) =~= a@);
    assert(b@.take(i as int) =~= b@);
    true
}

/// Reads a command line, given without the program's name, and the book path to
/// fall back on where `-b` gives none.
pub fn parse_command(args: &Vec<Vec<u8>>, default_book_path: Option<Vec<u8>>) -> (result: Result<
    Option<Arguments>,
    ArgumentError,
>)
    ensures
        outcome_of(result) == parsed(args@, bytes_of(default_book_path)),
{
    let mut book_path: Option<Vec<u8>> = None;
    let mut query: Option<String> = None;
    let mut expand_unknown = false;
    let mut format = Format::Terminal;
    let ghost mut seen = nothing_seen();
    let mut i: usize = 0;
    while i < args.len()
        invariant
            i <= args.len(),
            scan(args@, 0, nothing_seen()) == scan(args@, i as int, seen),
            bytes_of(book_path) == seen.book_path,
            seen.expand_unknown == expand_unknown,
            seen.format == format,
            match query {
                Some(q) => seen.query == Some(encode_utf8(q@)),
                None => seen.query is None,
            },
        decreases args.len() - i,
    {
        let arg = args[i].as_slice();
        if same_bytes(arg, "-b".as_bytes()) {
            if i + 1 < args.len() {
                let path = args[i + 1].clone();
                assert(path@ =~= args@[i + 1]@);
                book_path = Some(path);
                proof {
                    seen = Seen { book_path: Some(args@[i + 1]@), ..seen };
                }
                i += 2;
            } else {
                return Err(ArgumentError::MissingOptionValue);
            }
        } else if same_bytes(arg, "--expand-unknown-characters".as_bytes()) {
            expand_unknown = true;
            proof {
                seen = Seen { expand_unknown: true, ..seen };
            }
            i += 1;
        } else if same_bytes(arg, "--html".as_bytes()) {
            format = Format::HTML;
            proof {
                seen = Seen { format: Format::HTML, ..seen };
            }
            i += 1;
        } else {
            match core::str::from_utf8(arg) {
                Ok(s) => {
                    query = Some(s.to_owned());
                    proof {
                        seen = Seen { query: Some(args@[i as int]@), ..seen };
                    }
                    i += 1;
                },
                Err(_) => {
                    return Err(ArgumentError::InvalidQuery);
                },
            }
        }
    }
    let book_path = match book_path {
        Some(path) => path,
        None => match default_book_path {
            Some(path) => path,
            None => {
                return Err(ArgumentError::NoBookPath);
            },
        },
    };
    match query {
        Some(query) => {
            proof {
                encode_utf8_decode_utf8(query@);
            }
            Ok(
                Some(
                    Arguments {
                        book_path,
                        expand_unknown,
                        command: Command::Search(Index::WordAsIs, query),
                        format,
                    },
                ),
            )
        },
        None => Ok(None),
    }
}

} // verus!
