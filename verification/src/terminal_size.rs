//! Terminal size.
//!
//! The size of the terminal is determined from plain values that the
//! embedding program looks up: the dimensions reported by the TTY, and the
//! contents of the `COLUMNS` and `LINES` environment variables.  The
//! selection and parsing logic lives here and is verified; the lookups
//! themselves are the embedding program's business.

use vstd::prelude::*;
use crate::digits::parse_usize;
use crate::digits::parse_usize_spec;

verus! {

/// The size of a text terminal, in characters and lines.
#[derive(Debug, Copy, Clone, PartialEq, Eq, Structural)]
pub struct Size {
    /// The width of the terminal, in characters aka columns.
    pub width: usize,
    /// The height of the terminal, in lines.
    pub height: usize,
}

impl Default for Size {
    /// A good default size assumption for a terminal: 80x24.
    fn default() -> (s: Size)
        ensures
            s.width == 80,
            s.height == 24,
    {
        Size { width: 80, height: 24 }
    }
}

/// The character sequence inside an optional string, if any.
pub open spec fn opt_str_view(s: Option<&str>) -> Option<Seq<char>> {
    match s {
        Some(x) => Some(x@),
        None => None,
    }
}

/// The size read from the values of the `COLUMNS` and `LINES` environment
/// variables: one only when both variables are present and both parse as
/// decimal numbers.
pub open spec fn env_size_spec(columns: Option<Seq<char>>, lines: Option<Seq<char>>) -> Option<
    Size,
> {
    match (columns, lines) {
        (Some(c), Some(l)) => match (parse_usize_spec(c), parse_usize_spec(l)) {
            (Some(w), Some(h)) => Some(Size { width: w, height: h }),
            _ => None,
        },
        _ => None,
    }
}

/// The detected size: the dimensions the TTY reports when it reports any,
/// the environment's otherwise.
pub open spec fn detect_spec(
    tty: Option<(usize, usize)>,
    columns: Option<Seq<char>>,
    lines: Option<Seq<char>>,
) -> Option<Size> {
    match tty {
        Some(d) => Some(Size { width: d.0, height: d.1 }),
        None => env_size_spec(columns, lines),
    }
}

impl Size {
    pub fn new(width: usize, height: usize) -> (s: Size)
        ensures
            s.width == width,
            s.height == height,
    {
        Size { width, height }
    }

    /// Get the terminal size from the values of `$COLUMNS` and `$LINES`,
    /// passed in by whoever looked the variables up.
    pub fn from_env(columns: Option<&str>, lines: Option<&str>) -> (r: Option<Size>)
        ensures
            r == env_size_spec(opt_str_view(columns), opt_str_view(lines)),
    {
        let width: Option<usize> = match columns {
            Some(c) => parse_usize(c),
            None => None,
        };
        let height: Option<usize> = match lines {
            Some(l) => parse_usize(l),
            None => None,
        };
        match (width, height) {
            (Some(w), Some(h)) => Some(Size::new(w, h)),
            _ => None,
        }
    }

    /// Detect the terminal size.
    ///
    /// Take the dimensions the underlying TTY reported, if it reported
    /// any, and fall back to `$COLUMNS` and `$LINES`.
    pub fn detect(tty: Option<(usize, usize)>, columns: Option<&str>, lines: Option<&str>) -> (r:
        Option<Size>)
        ensures
            r == detect_spec(tty, opt_str_view(columns), opt_str_view(lines)),
    {
        match tty {
            Some((w, h)) => Some(Size::new(w, h)),
            None => Size::from_env(columns, lines),
        }
    }
}

} // verus!
