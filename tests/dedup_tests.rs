use feed_sync::dedup::{fallback_key, identity_key, DedupCache, TradeDeduplicator, TradeRecord, TradeSide};

fn trade(id: Option<u64>, price: u128, ts: i64) -> TradeRecord {
    TradeRecord {
        exchange_id: id,
        price,
        quantity: 3,
        side: Some(TradeSide::Buy),
        exchange_timestamp: ts,
        receipt_timestamp: ts + 5,
    }
}

#[test]
fn same_key_twice_true_then_false() {
    let mut c = DedupCache::new(3);
    assert!(c.insert(7));
    assert!(!c.insert(7));
    assert_eq!(c.len(), 1);
}

#[test]
fn oldest_key_admittable_after_overflow() {
    let mut c = DedupCache::new(2);
    assert!(c.insert(1));
    assert!(c.insert(2));
    assert!(c.insert(3));
    assert_eq!(c.len(), 2);
    assert!(!c.contains(1));
    assert!(c.contains(2));
    assert!(c.insert(1));
    assert!(!c.contains(2));
}

#[test]
fn deduplicator_refuses_repeat_trade() {
    let mut d = TradeDeduplicator::new(10);
    let t = trade(None, 100, 1_000);
    assert!(d.offer(&t));
    assert!(!d.offer(&t));
}

#[test]
fn deduplicator_refuses_older_trade() {
    let mut d = TradeDeduplicator::new(10);
    assert!(d.offer(&trade(None, 100, 1_000)));
    assert!(!d.offer(&trade(None, 101, 999)));
    assert!(d.offer(&trade(None, 101, 1_000)));
}

#[test]
fn deduplicator_evicts_oldest_identity() {
    let mut d = TradeDeduplicator::new(1);
    let a = trade(Some(1), 100, 1_000);
    let b = trade(Some(2), 100, 1_000);
    assert!(d.offer(&a));
    assert!(d.offer(&b));
    assert!(d.offer(&a));
}

#[test]
fn identity_uses_exchange_id_when_present() {
    assert_eq!(identity_key(&trade(Some(99), 1, 2)), 99);
    let t = trade(None, 1, 2);
    assert_eq!(identity_key(&t), fallback_key(&t));
}

#[test]
fn fallback_key_depends_on_fields() {
    let base = trade(None, 100, 1_000);
    assert_eq!(fallback_key(&base), fallback_key(&trade(None, 100, 1_000)));
    assert_ne!(fallback_key(&base), fallback_key(&trade(None, 101, 1_000)));
    assert_ne!(fallback_key(&base), fallback_key(&trade(None, 100, 1_001)));
    let mut sell = base;
    sell.side = Some(TradeSide::Sell);
    assert_ne!(fallback_key(&base), fallback_key(&sell));
    let mut negative = base;
    negative.exchange_timestamp = -1;
    assert_ne!(fallback_key(&base), fallback_key(&negative));
}

#[test]
fn offer_batch_keeps_admitted_in_order() {
    let mut d = TradeDeduplicator::new(10);
    let page = vec![trade(None, 1, 10), trade(None, 2, 11), trade(None, 1, 10), trade(None, 3, 9), trade(None, 4, 12)];
    let out = d.offer_batch(&page);
    assert_eq!(out, vec![page[0], page[1], page[4]]);
}
