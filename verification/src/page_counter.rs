//! The page-counter chip text: "X / N" for a single page, "X–Y / N" for a
//! two-page spread (1-based display), "0 / 0" when nothing is open.
use crate::text::{decimal, push_decimal};
use vstd::prelude::*;

verus! {

/// The " / " separator between the page(s) and the total.
pub open spec fn slash_sep() -> Seq<char> {
    seq![' ', '/', ' ']
}

/// The chip text for a spread's leading page, optional trailing page (both
/// 0-based) and the total page count.
pub open spec fn page_counter_spec(lead: nat, trailing: Option<nat>, total: nat) -> Seq<char> {
    if total == 0 {
        seq!['0', ' ', '/', ' ', '0']
    } else {
        match trailing {
            Some(t) => decimal(lead + 1) + seq!['\u{2013}'] + decimal(t + 1) + slash_sep() + decimal(total),
            None => decimal(lead + 1) + slash_sep() + decimal(total),
        }
    }
}

/// Format the page-counter chip text from a spread's leading page, its
/// optional trailing page (both 0-based), and the total page count.
pub fn page_counter_text(lead: usize, trailing: Option<usize>, total: usize) -> (s: String)
    requires
        total != 0 ==> lead < usize::MAX,
        total != 0 ==> (trailing matches Some(t) ==> t < usize::MAX),
    ensures
        s@ == page_counter_spec(
            lead as nat,
            match trailing {
                Some(t) => Some(t as nat),
                None => None,
            },
            total as nat,
        ),
{
    if total == 0 {
        let s = String::from_str("0 / 0");
        proof { reveal_strlit("0 / 0"); }
        assert(s@ =~= seq!['0', ' ', '/', ' ', '0']);
        return s;
    }
    let mut s = String::new();
    push_decimal(&mut s, (lead + 1) as u64);
    match trailing {
        Some(t) => {
            s.append("\u{2013}");
            proof { reveal_strlit("\u{2013}"); }
            push_decimal(&mut s, (t + 1) as u64);
        },
        None => {},
    }
    s.append(" / ");
    proof { reveal_strlit(" / "); }
    push_decimal(&mut s, total as u64);
    assert(s@ =~= page_counter_spec(
        lead as nat,
        match trailing {
            Some(t) => Some(t as nat),
            None => None,
        },
        total as nat,
    ));
    s
}

} // verus!
