//! Small status-line compositions: appending a detail to a status line, the
//! home-screen notice of a failed load, and the 1-based page shown.
use vstd::prelude::*;

verus! {

/// `base`, an em dash, and `detail`.
pub fn append_detail(base: &str, detail: &str) -> (s: String)
    ensures
        s@ == base@ + " \u{2014} "@ + detail@,
{
    let mut s = String::from_str(base);
    s.append(" \u{2014} ");
    s.append(detail);
    s
}

/// The home-screen notice after loading `label` failed with `error`:
/// `label (error)`, followed by where the corrupt file was kept when it was
/// kept aside.
pub fn load_failure_notice(label: &str, error: &str, kept_as: Option<&str>) -> (s: String)
    ensures
        s@ == match kept_as {
            Some(k) => label@ + " ("@ + error@ + "); corrupt file kept as "@ + k@,
            None => label@ + " ("@ + error@ + ")"@,
        },
{
    let mut s = String::from_str(label);
    s.append(" (");
    s.append(error);
    match kept_as {
        Some(k) => {
            s.append("); corrupt file kept as ");
            s.append(k);
        },
        None => {
            s.append(")");
        },
    }
    s
}

/// The 1-based page shown: 0 when no page is loaded, else `index + 1`.
pub fn current_page_1based(page_count: usize, index: usize) -> (p: usize)
    requires
        page_count == 0 || index < usize::MAX,
    ensures
        p == if page_count == 0 {
            0
        } else {
            (index + 1) as usize
        },
{
    if page_count == 0 {
        0
    } else {
        index + 1
    }
}

} // verus!
