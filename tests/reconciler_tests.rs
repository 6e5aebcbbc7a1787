use feed_sync::book::{PriceLevel, Side};
use feed_sync::reconciler::{
    handle_diff_update, reload_snapshot, BookDelta, BookSnapshot, DeltaOutcome, DeltaVerdict, ReconcileError,
    SequenceReconciler, SyncState, VersionCursor,
};
use feed_sync::wire::{RawDepthDelta, RawLevel, Snapshot};

fn lv(price: u128, quantity: u128) -> PriceLevel {
    PriceLevel { price, quantity }
}

fn snapshot(version: u64, bids: Vec<PriceLevel>, asks: Vec<PriceLevel>) -> BookSnapshot {
    BookSnapshot { version, bids, asks }
}

fn delta(from_version: u64, to_version: u64, bids: Vec<PriceLevel>, asks: Vec<PriceLevel>) -> BookDelta {
    BookDelta { from_version, to_version, bids, asks }
}

fn raw(price: &str, quantity: &str) -> RawLevel {
    RawLevel { price: price.to_string(), quantity: quantity.to_string() }
}

fn synced(tolerance: u64) -> SequenceReconciler {
    let mut r = SequenceReconciler::new(tolerance);
    r.apply_snapshot(&snapshot(100, vec![lv(10, 1)], vec![lv(11, 2)]));
    r
}

#[test]
fn scenario_snapshot_then_deltas() {
    let mut r = synced(2);
    assert_eq!(r.book().best(Side::Bid), Some(lv(10, 1)));
    assert_eq!(r.book().best(Side::Ask), Some(lv(11, 2)));

    let out = r.apply_delta(&delta(101, 101, vec![], vec![lv(11, 0)]));
    assert_eq!(out, Ok(DeltaOutcome::Applied { fast_forwarded: false, crossed: false }));
    assert_eq!(r.book().best(Side::Ask), None);

    // A fresh snapshot at 100, then a gap of two versions: tolerated once.
    r.apply_snapshot(&snapshot(100, vec![lv(10, 1)], vec![lv(11, 2)]));
    let out = r.apply_delta(&delta(103, 104, vec![lv(10, 3)], vec![]));
    assert_eq!(out, Ok(DeltaOutcome::Applied { fast_forwarded: true, crossed: false }));
    assert_eq!(r.cursor(), VersionCursor { confirmed_version: 104, last_contiguous_to: Some(104) });

    // A smaller gap after a delta was applied is not tolerated.
    let out = r.apply_delta(&delta(106, 107, vec![lv(10, 9)], vec![]));
    assert_eq!(out, Err(ReconcileError::Gap { needed: 105, from_version: 106, to_version: 107 }));
    assert_eq!(r.state(), SyncState::Faulted);
    assert_eq!(r.book().best(Side::Bid), Some(lv(10, 3)));
}

#[test]
fn stale_delta_leaves_book_unchanged() {
    let mut r = synced(5);
    let out = r.apply_delta(&delta(90, 100, vec![lv(10, 0)], vec![lv(11, 7)]));
    assert_eq!(out, Ok(DeltaOutcome::Discarded));
    assert_eq!(r.book().best(Side::Bid), Some(lv(10, 1)));
    assert_eq!(r.book().best(Side::Ask), Some(lv(11, 2)));
    assert_eq!(r.cursor(), VersionCursor { confirmed_version: 100, last_contiguous_to: None });
    assert_eq!(r.state(), SyncState::Synced);
}

#[test]
fn gap_beyond_tolerance_faults_without_mutation() {
    let mut r = synced(2);
    let out = r.apply_delta(&delta(104, 105, vec![lv(10, 0)], vec![]));
    assert_eq!(out, Err(ReconcileError::Gap { needed: 101, from_version: 104, to_version: 105 }));
    assert_eq!(r.state(), SyncState::Faulted);
    assert_eq!(r.book().best(Side::Bid), Some(lv(10, 1)));
    assert_eq!(r.cursor().confirmed_version, 100);
    // Faulted: deltas are refused until a snapshot arrives.
    assert_eq!(r.apply_delta(&delta(101, 101, vec![], vec![])), Err(ReconcileError::NotSynced));
    r.apply_snapshot(&snapshot(200, vec![], vec![]));
    assert_eq!(r.state(), SyncState::Synced);
}

#[test]
fn gap_within_tolerance_after_snapshot_is_applied() {
    let mut r = synced(3);
    let out = r.apply_delta(&delta(104, 106, vec![lv(9, 4)], vec![]));
    assert_eq!(out, Ok(DeltaOutcome::Applied { fast_forwarded: true, crossed: false }));
    assert_eq!(r.cursor().confirmed_version, 106);
    assert_eq!(r.book().depth(Side::Bid), 2);
}

#[test]
fn contiguous_deltas_match_direct_application() {
    let mut r = synced(0);
    r.apply_delta(&delta(101, 102, vec![lv(10, 0), lv(9, 4)], vec![lv(12, 1)])).unwrap();
    r.apply_delta(&delta(103, 103, vec![lv(9, 5)], vec![lv(11, 0)])).unwrap();
    r.apply_delta(&delta(102, 105, vec![lv(8, 1)], vec![])).unwrap();

    let mut direct = SequenceReconciler::new(0);
    direct.apply_snapshot(&snapshot(
        0,
        vec![lv(10, 1), lv(10, 0), lv(9, 4), lv(9, 5), lv(8, 1)],
        vec![lv(11, 2), lv(12, 1), lv(11, 0)],
    ));
    assert_eq!(r.book().best(Side::Bid), direct.book().best(Side::Bid));
    assert_eq!(r.book().best(Side::Ask), direct.book().best(Side::Ask));
    assert_eq!(r.book().best(Side::Bid), Some(lv(9, 5)));
    assert_eq!(r.book().best(Side::Ask), Some(lv(12, 1)));
    assert_eq!(r.cursor().confirmed_version, 105);
}

#[test]
fn delta_before_snapshot_is_refused() {
    let mut r = SequenceReconciler::new(10);
    assert_eq!(r.state(), SyncState::Bootstrapping);
    assert_eq!(r.apply_delta(&delta(1, 2, vec![lv(1, 1)], vec![])), Err(ReconcileError::NotSynced));
    assert_eq!(r.book().depth(Side::Bid), 0);
}

#[test]
fn crossed_book_is_kept_and_reported() {
    let mut r = synced(0);
    let out = r.apply_delta(&delta(101, 101, vec![lv(12, 1)], vec![]));
    assert_eq!(out, Ok(DeltaOutcome::Applied { fast_forwarded: false, crossed: true }));
    assert!(r.book().is_crossed());
}

#[test]
fn classify_reports_each_verdict() {
    let r = synced(2);
    assert_eq!(r.classify(90, 100), DeltaVerdict::Stale);
    assert_eq!(r.classify(101, 101), DeltaVerdict::Contiguous);
    assert_eq!(r.classify(95, 110), DeltaVerdict::Contiguous);
    assert_eq!(r.classify(103, 104), DeltaVerdict::FastForward);
    assert_eq!(r.classify(104, 104), DeltaVerdict::Gap);
    assert_eq!(SequenceReconciler::new(2).classify(1, 1), DeltaVerdict::NotSynced);
}

#[test]
fn text_delta_is_read_and_applied() {
    let mut r = synced(0);
    let d = RawDepthDelta {
        from_version: "101".to_string(),
        to_version: "102".to_string(),
        bids: vec![raw("0.000000000000000010", "0")],
        asks: vec![raw("0.000000000000000011", "0.000000000000000005")],
    };
    let out = handle_diff_update(&mut r, &d);
    assert_eq!(out, Ok(DeltaOutcome::Applied { fast_forwarded: false, crossed: false }));
    assert_eq!(r.book().best(Side::Bid), None);
    assert_eq!(r.book().best(Side::Ask), Some(lv(11, 5)));
    assert_eq!(r.cursor().confirmed_version, 102);
}

#[test]
fn malformed_text_delta_is_refused_whole() {
    let mut r = synced(0);
    let d = RawDepthDelta {
        from_version: "101".to_string(),
        to_version: "101".to_string(),
        bids: vec![raw("0.000000000000000010", "0")],
        asks: vec![raw("bad", "1")],
    };
    assert_eq!(handle_diff_update(&mut r, &d), Err(ReconcileError::Malformed));
    assert_eq!(r.book().best(Side::Bid), Some(lv(10, 1)));
    assert_eq!(r.cursor().confirmed_version, 100);
    assert_eq!(r.state(), SyncState::Faulted);

    let mut r = synced(0);
    let d = RawDepthDelta { from_version: "x".to_string(), to_version: "101".to_string(), bids: vec![], asks: vec![] };
    assert_eq!(handle_diff_update(&mut r, &d), Err(ReconcileError::Malformed));
}

#[test]
fn text_snapshot_is_read_and_installed() {
    let mut r = SequenceReconciler::new(0);
    let s = Snapshot {
        last_update_id: 42,
        bids: vec![raw("1.5", "2"), raw("1.25", "0")],
        asks: vec![raw("2", "1")],
    };
    assert_eq!(reload_snapshot(&mut r, &s), Ok(42));
    assert_eq!(r.state(), SyncState::Synced);
    assert_eq!(r.book().depth(Side::Bid), 1);
    assert_eq!(r.book().best(Side::Bid), Some(lv(15 * 10u128.pow(17), 2 * 10u128.pow(18))));

    let bad = Snapshot { last_update_id: 50, bids: vec![raw("1", "x")], asks: vec![] };
    assert_eq!(reload_snapshot(&mut r, &bad), Err(ReconcileError::Malformed));
    assert_eq!(r.cursor().confirmed_version, 42);
}
