use gashuu::thumbnail_strip::ThumbnailController;
use gashuu::thumbnail_strip::preview_trailing;
use gashuu::thumbnail_strip::take_fresh;
use std::collections::HashSet;

#[test]
fn take_fresh_dedups_repeated_requests() {
    let mut req = HashSet::new();
    assert_eq!(take_fresh(&mut req, 10, vec![0, 1, 2]), vec![0, 1, 2]);
    assert_eq!(take_fresh(&mut req, 10, vec![1, 2, 3]), vec![3]);
    assert_eq!(take_fresh(&mut req, 10, vec![0, 1, 2, 3]), Vec::<usize>::new());
}

#[test]
fn take_fresh_clamps_out_of_range() {
    let mut req = HashSet::new();
    assert_eq!(take_fresh(&mut req, 3, vec![1, 2, 3, 4]), vec![1, 2]);
    assert!(!req.contains(&3) && !req.contains(&4));
}

#[test]
fn take_fresh_drops_repeats_within_one_request() {
    let mut req = HashSet::new();
    assert_eq!(take_fresh(&mut req, 10, vec![4, 4, 2, 4]), vec![4, 2]);
    assert_eq!(req.len(), 2);
}

#[test]
fn preview_partner_is_the_next_page_capped_at_the_last() {
    assert_eq!(preview_trailing(3, 10, true), Some(4));
    assert_eq!(preview_trailing(9, 10, true), Some(9));
    assert_eq!(preview_trailing(3, 10, false), None);
}

#[test]
fn strip_start_requests_the_leading_window_once() {
    let mut strip = ThumbnailController::new();
    let (epoch, initial) = strip.start(true, 40);
    assert_eq!(epoch, 1);
    assert_eq!(initial, Some((0..16).collect::<Vec<usize>>()));
    assert_eq!(strip.request_pages(vec![14, 15, 16, 17]), Some((1, vec![16, 17])));
    assert_eq!(strip.request_pages(vec![0, 1, 16]), None, "all already requested");
}

#[test]
fn strip_of_a_short_book_and_of_no_source() {
    let mut strip = ThumbnailController::new();
    assert_eq!(strip.start(true, 3), (1, Some(vec![0, 1, 2])));
    assert_eq!(strip.start(true, 0), (2, None));
    assert_eq!(strip.start(false, 10), (3, None));
    assert_eq!(strip.request_pages(vec![0]), None, "no source shown");
}
