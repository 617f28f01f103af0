//! Positions in a module's text.

use vstd::prelude::*;
use crate::ast::ParsedSource;
use crate::node::{Location, LocationView};

verus! {

/// The number of line breaks among the first `pos` characters of `text`.
pub open spec fn newlines_before(text: Seq<char>, pos: int) -> nat
    decreases pos,
{
    if pos <= 0 {
        0
    } else {
        newlines_before(text, pos - 1) + if text[pos - 1] == '\n' {
            1nat
        } else {
            0nat
        }
    }
}

/// The position at which the line that holds `pos` begins: just after the last
/// line break before `pos`, or the start of the text.
pub open spec fn line_start(text: Seq<char>, pos: int) -> int
    decreases pos,
{
    if pos <= 0 {
        0
    } else if text[pos - 1] == '\n' {
        pos
    } else {
        line_start(text, pos - 1)
    }
}

/// The location of position `pos` in the text of the module `specifier`: the
/// line, counted from 1, and the column, counted from 0. A position past the
/// end of the text stands for the end.
pub open spec fn location_at(specifier: Seq<char>, text: Seq<char>, pos: int) -> LocationView {
    let p = if pos < text.len() {
        pos
    } else {
        text.len() as int
    };
    let line = newlines_before(text, p) + 1;
    LocationView {
        filename: specifier,
        line: if line > usize::MAX {
            usize::MAX
        } else {
            line as usize
        },
        col: (p - line_start(text, p)) as usize,
    }
}

/// Maps a position in a module's text to its line and column.
pub fn get_location(parsed_source: &ParsedSource, pos: usize) -> (location: Location)
    ensures
        location.deep_view() == location_at(
            parsed_source.specifier@,
            parsed_source.text@,
            pos as int,
        ),
{
    let text = &parsed_source.text;
    let p: usize = if pos < text.len() {
        pos
    } else {
        text.len()
    };
    let mut breaks: usize = 0;
    let mut start: usize = 0;
    let mut i: usize = 0;
    while i < p
        invariant
            i <= p <= text@.len(),
            breaks == newlines_before(text@, i as int),
            breaks <= i,
            start == line_start(text@, i as int),
            start <= i,
        decreases p - i,
    {
        if text[i] == '\n' {
            breaks += 1;
            start = i + 1;
        }
        i += 1;
    }
    let line: usize = if breaks == usize::MAX {
        usize::MAX
    } else {
        breaks + 1
    };
    Location { filename: parsed_source.specifier.clone(), line, col: p - start }
}

} // verus!
