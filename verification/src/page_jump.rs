//! The viewer's page-jump field: a 1-based page number typed by the user,
//! clamped into the book and returned as a 0-based page index.
use crate::text::{parse_usize_spec, parse_usize_range, trim_bounds, trim_spec};
use vstd::prelude::*;

verus! {

/// The 0-based page a page-jump input selects in a book of `total` pages:
/// nothing for an empty input, an empty book or a non-numeric input;
/// otherwise the trimmed number clamped into `[1, total]`, minus one.
pub open spec fn page_jump_spec(input: Seq<char>, total: nat) -> Option<nat> {
    if input.len() == 0 || total == 0 {
        None
    } else {
        match parse_usize_spec(trim_spec(input)) {
            None => None,
            Some(n) => Some(
                ((if n < 1 { 1 } else if n > total { total } else { n as nat }) - 1) as nat,
            ),
        }
    }
}

/// Parse a 1-based page-jump string into a 0-based page index.
pub fn parse_page_jump(input: &str, total: usize) -> (r: Option<usize>)
    ensures
        r == (match page_jump_spec(input@, total as nat) {
            Some(p) => Some(p as usize),
            None => None,
        }),
        r matches Some(p) ==> p < total,
{
    if input.is_empty() {
        return None;
    }
    if total == 0 {
        return None;
    }
    let (from, to) = trim_bounds(input);
    let n = match parse_usize_range(input, from, to) {
        Some(n) => n,
        None => return None,
    };
    let clamped = if n < 1 { 1 } else if n > total { total } else { n };
    Some(clamped - 1)
}

} // verus!
