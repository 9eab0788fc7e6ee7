use gashuu::cover_loader::{
    cover_step, CoverAction, CoverController, CoverEvent, CoverPhase,
    distance, prioritize_by_focus, should_signal_empty, CoverCachePolicy, CoverMemCache,
    CoverRequest, COVER_MEM_BUDGET_BYTES,
};
use std::num::NonZeroUsize;

#[test]
fn insert_past_budget_evicts_lru_and_caps_total() {
    let mut c = CoverMemCache::with_budget(12);
    c.insert("a".into(), 8);
    c.insert("b".into(), 8);
    c.insert("c".into(), 8);
    assert!(c.total_bytes() <= 12, "running total {} must stay within the budget", c.total_bytes());
    assert_eq!(c.len(), 1, "only the most-recent cover survives");
    assert!(c.get("c").is_some(), "the most-recently inserted survives");
    assert!(c.get("a").is_none(), "the oldest was evicted");
    assert!(c.get("b").is_none(), "the middle was evicted");
}

#[test]
fn get_promotes_mru_so_touched_entry_survives_eviction() {
    let mut c = CoverMemCache::with_budget(16);
    c.insert("a".into(), 8);
    c.insert("b".into(), 8);
    assert!(c.get("a").is_some(), "promote a to MRU (b is now the LRU)");
    c.insert("c".into(), 8);
    assert!(c.get("a").is_some(), "promoted entry survived eviction");
    assert!(c.get("c").is_some(), "newly inserted entry is present");
    assert!(c.get("b").is_none(), "the un-promoted LRU entry was evicted");
    assert!(c.total_bytes() <= 16, "total stays within the budget");
}

#[test]
fn single_oversized_entry_is_retained_as_floor() {
    let mut c = CoverMemCache::with_budget(8);
    c.insert("big".into(), 64);
    assert_eq!(c.len(), 1, "the oversized entry is kept as the floor");
    assert!(c.get("big").is_some(), "oversized cover is still served");
    c.insert("big2".into(), 64);
    assert_eq!(c.len(), 1, "floor stays at one even when over budget");
    assert!(c.get("big2").is_some(), "the newest oversized cover wins");
    assert!(c.get("big").is_none(), "the prior oversized cover was evicted");
}

#[test]
fn reinsert_same_key_replaces_without_double_counting() {
    let mut c = CoverMemCache::with_budget(64);
    c.insert("k".into(), 8);
    c.insert("k".into(), 16);
    assert_eq!(c.len(), 1, "same key replaces, not appends");
    assert_eq!(c.total_bytes(), 16, "total reflects only the new buffer");
    let got = c.get("k").expect("key present");
    assert_eq!(got, 16, "the replacement value is served");
}

#[test]
fn default_budget_is_the_documented_constant() {
    let c = CoverMemCache::new();
    assert_eq!(c.budget(), COVER_MEM_BUDGET_BYTES);
    assert_eq!(c.budget(), 64 * 1024 * 1024);
    assert_eq!(c.total_bytes(), 0, "a fresh cache holds nothing");
}

#[test]
fn insert_reports_the_evicted_keys_oldest_first() {
    let mut c = CoverMemCache::with_budget(20);
    assert!(c.insert("a".into(), 8).is_empty());
    assert!(c.insert("b".into(), 8).is_empty());
    assert_eq!(c.insert("c".into(), 16), vec!["a".to_string(), "b".to_string()]);
    assert_eq!(c.total_bytes(), 16);
}

#[test]
fn default_policy_preserves_on_disk_values() {
    assert_eq!(
        CoverCachePolicy::default().max_side,
        512,
        "max_side is a cache-key ingredient; changing it breaks existing covers"
    );
    assert_eq!(
        CoverCachePolicy::default().max_bytes,
        256 * 1024 * 1024,
        "max_bytes is the on-disk cover-cache prune target"
    );
}

#[test]
fn policy_is_copy_and_eq() {
    let a = CoverCachePolicy::default();
    let b = a;
    assert_eq!(a, b);
}

fn req(row: usize) -> CoverRequest {
    CoverRequest { row, path: format!("/manga/{row}.cbz"), needs_count: false }
}

fn rows(requests: &[CoverRequest]) -> Vec<usize> {
    requests.iter().map(|r| r.row).collect()
}

#[test]
fn prioritize_orders_by_distance_from_focus() {
    let ordered = prioritize_by_focus((0..5).map(req).collect(), 2);
    assert_eq!(rows(&ordered), vec![2, 1, 3, 0, 4]);
}

#[test]
fn prioritize_focus_zero_is_identity() {
    let ordered = prioritize_by_focus((0..4).map(req).collect(), 0);
    assert_eq!(rows(&ordered), vec![0, 1, 2, 3]);
}

#[test]
fn prioritize_focus_beyond_last_row_orders_descending() {
    let ordered = prioritize_by_focus((0..3).map(req).collect(), 10);
    assert_eq!(rows(&ordered), vec![2, 1, 0]);
}

#[test]
fn prioritize_empty_is_empty() {
    assert!(prioritize_by_focus(Vec::new(), 5).is_empty());
}

#[test]
fn prioritize_keeps_input_order_on_ties() {
    let input = vec![req(4), req(0), req(3), req(1)];
    let ordered = prioritize_by_focus(input, 2);
    assert_eq!(rows(&ordered), vec![3, 1, 4, 0]);
    assert_eq!(ordered[0].path, "/manga/3.cbz");
}

#[test]
fn row_distance_is_symmetric() {
    assert_eq!(distance(2, 7), 5);
    assert_eq!(distance(7, 2), 5);
    assert_eq!(distance(0, usize::MAX), usize::MAX);
}

type OpenResult = Result<(), &'static str>;

fn count(n: usize) -> Option<usize> {
    NonZeroUsize::new(n).map(NonZeroUsize::get)
}

#[test]
fn signal_empty_on_open_success_zero_pages() {
    let open: OpenResult = Ok(());
    assert!(should_signal_empty(&open, None));
}

#[test]
fn no_signal_on_open_success_with_pages() {
    let open: OpenResult = Ok(());
    assert!(!should_signal_empty(&open, count(5)));
    assert!(!should_signal_empty(&open, count(1)));
}

#[test]
fn no_signal_on_open_error() {
    let open: OpenResult = Err("unreadable");
    assert!(!should_signal_empty(&open, None));
    assert!(!should_signal_empty(&open, count(5)));
}

#[test]
fn cover_worker_miss_opens_generates_and_stores() {
    let (p, a) = cover_step(CoverPhase::Start, true, CoverEvent::Started { cancelled: false, cache_ok: true });
    assert_eq!(a, CoverAction::CheckMemory);
    let (p, a) = cover_step(p, true, CoverEvent::MemoryLookup { hit: false, cancelled: false });
    assert_eq!(a, CoverAction::CheckDisk);
    let (p, a) = cover_step(p, true, CoverEvent::DiskLookup { hit: false, cancelled: false });
    assert_eq!(a, CoverAction::OpenSource);
    let (p, a) = cover_step(p, true, CoverEvent::SourceOpened { ok: true, page_count: 12, cancelled: false });
    assert_eq!(a, CoverAction::GenerateCover);
    assert_eq!(p, CoverPhase::Generate { count: Some(12) });
    let (p, a) = cover_step(p, true, CoverEvent::CoverGenerated { ok: true, cancelled: false });
    assert_eq!(a, CoverAction::StoreCover { show: true, count: Some(12) });
    assert_eq!(p, CoverPhase::Finished);
}

#[test]
fn cover_worker_hits_show_and_resolve_counts_when_asked() {
    let (p, a) = cover_step(CoverPhase::Memory, true, CoverEvent::MemoryLookup { hit: true, cancelled: false });
    assert_eq!((p, a), (CoverPhase::Finished, CoverAction::ShowCached { resolve_count: true }));
    let (_, a) = cover_step(CoverPhase::Disk, false, CoverEvent::DiskLookup { hit: true, cancelled: false });
    assert_eq!(a, CoverAction::ShowFromDisk { resolve_count: false });
    let (_, a) = cover_step(CoverPhase::Disk, true, CoverEvent::DiskLookup { hit: true, cancelled: true });
    assert_eq!(a, CoverAction::ShowFromDisk { resolve_count: false });
}

#[test]
fn cover_worker_failures_and_empty_books() {
    let (_, a) = cover_step(CoverPhase::Open, false, CoverEvent::SourceOpened { ok: false, page_count: 0, cancelled: false });
    assert_eq!(a, CoverAction::MarkFailed);
    let (_, a) = cover_step(CoverPhase::Open, false, CoverEvent::SourceOpened { ok: true, page_count: 0, cancelled: false });
    assert_eq!(a, CoverAction::SignalEmpty);
    let (_, a) = cover_step(CoverPhase::Open, false, CoverEvent::SourceOpened { ok: true, page_count: 0, cancelled: true });
    assert_eq!(a, CoverAction::Stop);
    let (_, a) = cover_step(CoverPhase::Generate { count: None }, false, CoverEvent::CoverGenerated { ok: false, cancelled: false });
    assert_eq!(a, CoverAction::MarkFailed);
    let (_, a) = cover_step(CoverPhase::Generate { count: Some(3) }, true, CoverEvent::CoverGenerated { ok: true, cancelled: true });
    assert_eq!(a, CoverAction::StoreCover { show: false, count: None });
    let (p, a) = cover_step(CoverPhase::Start, false, CoverEvent::Started { cancelled: true, cache_ok: true });
    assert_eq!((p, a), (CoverPhase::Finished, CoverAction::Stop));
    let (p, a) = cover_step(CoverPhase::Memory, false, CoverEvent::DiskLookup { hit: true, cancelled: false });
    assert_eq!((p, a), (CoverPhase::Finished, CoverAction::Stop), "an out-of-phase event ends the worker");
}

#[test]
fn cover_controller_persists_counts_at_each_start() {
    let mut covers = CoverController::new();
    let (first, counts) = covers.start();
    assert_eq!(first, 1);
    assert!(counts.is_empty());
    assert!(covers.push_count(first, "/a".to_string(), 7));
    assert!(!covers.push_count(0, "/stale".to_string(), 7), "a superseded worker's count is dropped");
    let (second, counts) = covers.start();
    assert_eq!(second, 2);
    assert_eq!(counts, vec![("/a".to_string(), 7)]);
    assert!(covers.push_count(second, "/b".to_string(), 3));
    assert_eq!(covers.flush_counts(), vec![("/b".to_string(), 3)]);
    assert!(covers.flush_counts().is_empty());
}

#[test]
fn cover_controller_shares_one_memory_cache() {
    let mut covers = CoverController::new();
    assert!(covers.mem_insert("k".to_string(), 1024).is_empty());
    assert_eq!(covers.mem_get("k"), Some(1024));
    assert_eq!(covers.mem_get("other"), None);
}
