//! Reading a field out of the textual report of the inspector.
//!
//! A report is a text of lines. A field is announced by a marker somewhere
//! in a line, and its value is the last token of that line: what stands
//! between the last white space inside the line and the white space, if
//! any, at its end. Of several lines with the same marker the first counts.

use vstd::prelude::*;
use crate::text::{found_within, is_space, occurs_within, space};

verus! {

/// Where the line that starts at `start` ends: at the next line feed, or at
/// the end of the text.
pub open spec fn line_end(text: Seq<char>, start: int) -> int
    decreases text.len() - start,
{
    if start >= text.len() {
        text.len() as int
    } else if text[start] == '\n' {
        start
    } else {
        line_end(text, start + 1)
    }
}

/// The first line, of those that start at `start` or later, in which
/// `marker` stands: where it starts and where it ends. `start` is the
/// start of a line.
pub open spec fn marked_line(text: Seq<char>, marker: Seq<char>, start: int) -> Option<(int, int)>
    decreases text.len() - start,
    via marked_line_decreases
{
    if start < 0 || start > text.len() {
        None
    } else {
        let end = line_end(text, start);
        if occurs_within(text, marker, start, end) {
            Some((start, end))
        } else if end >= text.len() {
            None
        } else {
            marked_line(text, marker, end + 1)
        }
    }
}

#[via_fn]
proof fn marked_line_decreases(text: Seq<char>, marker: Seq<char>, start: int) {
    if 0 <= start <= text.len() {
        lemma_line_end_bounds(text, start);
    }
}

/// Where the part of `text` between `start` and `end` ends once the white
/// space at its end is taken off.
pub open spec fn trimmed_end(text: Seq<char>, start: int, end: int) -> int
    decreases end - start,
{
    if start < end && is_space(text[end - 1]) {
        trimmed_end(text, start, end - 1)
    } else {
        end
    }
}

/// Where the run of characters other than white space starts that ends at
/// `end`, looking no further back than `start`.
pub open spec fn token_start(text: Seq<char>, start: int, end: int) -> int
    decreases end - start,
{
    if start < end && !is_space(text[end - 1]) {
        token_start(text, start, end - 1)
    } else {
        end
    }
}

/// The last token of the part of `text` between `start` and `end`. It is
/// empty where that part holds nothing but white space.
pub open spec fn last_token(text: Seq<char>, start: int, end: int) -> Seq<char> {
    let stop = trimmed_end(text, start, end);
    text.subrange(token_start(text, start, stop), stop)
}

/// The value of the field that `marker` announces in `text`, if a line holds
/// the marker.
pub open spec fn field(text: Seq<char>, marker: Seq<char>) -> Option<Seq<char>> {
    match marked_line(text, marker, 0) {
        Some((start, end)) => Some(last_token(text, start, end)),
        None => None,
    }
}

/// A line ends at or after its start, and within the text.
pub proof fn lemma_line_end_bounds(text: Seq<char>, start: int)
    requires
        0 <= start <= text.len(),
    ensures
        start <= line_end(text, start) <= text.len(),
    decreases text.len() - start,
{
    if start < text.len() && text[start] != '\n' {
        lemma_line_end_bounds(text, start + 1);
    }
}

fn find_line_end(text: &Vec<char>, start: usize) -> (end: usize)
    requires
        start <= text@.len(),
    ensures
        end == line_end(text@, start as int),
        start <= end <= text@.len(),
{
    let n = text.len();
    let mut i: usize = start;
    while i < n && text[i] != '\n'
        invariant
            start <= i <= n,
            n == text@.len(),
            line_end(text@, start as int) == line_end(text@, i as int),
        decreases n - i,
    {
        i = i + 1;
    }
    i
}

fn find_marked_line(text: &Vec<char>, marker: &Vec<char>) -> (line: Option<(usize, usize)>)
    ensures
        match line {
            Some((start, end)) => start <= end <= text@.len() && marked_line(text@, marker@, 0)
                == Some((start as int, end as int)),
            None => marked_line(text@, marker@, 0) is None,
        },
{
    let n = text.len();
    let mut start: usize = 0;
    loop
        invariant
            start <= n,
            n == text@.len(),
            marked_line(text@, marker@, 0) == marked_line(text@, marker@, start as int),
        decreases n - start,
    {
        let end = find_line_end(text, start);
        if found_within(text, marker, start, end) {
            return Some((start, end));
        }
        if end >= n {
            return None;
        }
        start = end + 1;
    }
}

fn find_last_token(text: &Vec<char>, start: usize, end: usize) -> (token: (usize, usize))
    requires
        start <= end <= text@.len(),
    ensures
        start <= token.0 <= token.1 <= end,
        text@.subrange(token.0 as int, token.1 as int) == last_token(
            text@,
            start as int,
            end as int,
        ),
{
    let mut stop: usize = end;
    while start < stop && space(text[stop - 1])
        invariant
            start <= stop <= end,
            end <= text@.len(),
            trimmed_end(text@, start as int, end as int) == trimmed_end(
                text@,
                start as int,
                stop as int,
            ),
        decreases stop - start,
    {
        stop = stop - 1;
    }
    let mut first: usize = stop;
    while start < first && !space(text[first - 1])
        invariant
            start <= first <= stop,
            stop <= text@.len(),
            token_start(text@, start as int, stop as int) == token_start(
                text@,
                start as int,
                first as int,
            ),
        decreases first - start,
    {
        first = first - 1;
    }
    (first, stop)
}

/// Finds the field that `marker` announces in `text`: where its value
/// starts and where it ends.
pub fn find_field(text: &Vec<char>, marker: &Vec<char>) -> (value: Option<(usize, usize)>)
    ensures
        match value {
            Some((from, to)) => from <= to <= text@.len() && field(text@, marker@) == Some(
                text@.subrange(from as int, to as int),
            ),
            None => field(text@, marker@) is None,
        },
{
    match find_marked_line(text, marker) {
        Some((start, end)) => Some(find_last_token(text, start, end)),
        None => None,
    }
}

} // verus!
