use feed_sync::clock::ClockSkewSample;
use feed_sync::config::{load_config, ConfigError, ConfigKey, RawConfig, DEFAULT_DEDUP_CAPACITY, DEFAULT_GAP_TOLERANCE};
use feed_sync::rest::{latest_funding_rate, FundingRateEntry, FundingRateResponse, FundingRateResult, RestError};
use feed_sync::router::{classify_topic, starts_with, SequenceFilter, TopicKind};

fn raw_config() -> RawConfig {
    RawConfig {
        symbols: vec!["BTCUSDT".to_string()],
        url: Some("wss://example.invalid/ws".to_string()),
        ping_interval_secs: Some(20),
        log_level: Some("info".to_string()),
        save_logs: Some(false),
        log_file_path: Some("logs/app.log".to_string()),
        rewrite_last_logs: Some(true),
        gap_tolerance: None,
        dedup_capacity: None,
    }
}

#[test]
fn config_complete_is_loaded() {
    let c = load_config(raw_config()).ok().unwrap();
    assert_eq!(c.exchange.symbols, vec!["BTCUSDT".to_string()]);
    assert_eq!(c.websocket.url, "wss://example.invalid/ws");
    assert_eq!(c.websocket.ping_interval_secs, 20);
    assert_eq!(c.logging.level, "info");
    assert!(!c.logging.save_logs);
    assert!(c.logging.rewrite_last_logs);
    assert_eq!(c.sync.gap_tolerance, DEFAULT_GAP_TOLERANCE);
    assert_eq!(c.sync.dedup_capacity, DEFAULT_DEDUP_CAPACITY);
}

#[test]
fn config_overrides_sync_settings() {
    let mut r = raw_config();
    r.gap_tolerance = Some(0);
    r.dedup_capacity = Some(5);
    let c = load_config(r).ok().unwrap();
    assert_eq!(c.sync.gap_tolerance, 0);
    assert_eq!(c.sync.dedup_capacity, 5);
}

#[test]
fn config_faults_are_reported() {
    let mut r = raw_config();
    r.symbols = vec![];
    assert_eq!(load_config(r).err(), Some(ConfigError::Missing(ConfigKey::Symbols)));
    let mut r = raw_config();
    r.url = None;
    assert_eq!(load_config(r).err(), Some(ConfigError::Missing(ConfigKey::Url)));
    let mut r = raw_config();
    r.ping_interval_secs = Some(0);
    assert_eq!(load_config(r).err(), Some(ConfigError::OutOfRange(ConfigKey::PingIntervalSecs)));
    let mut r = raw_config();
    r.log_file_path = None;
    assert_eq!(load_config(r).err(), Some(ConfigError::Missing(ConfigKey::LogFilePath)));
    let mut r = raw_config();
    r.gap_tolerance = Some(-1);
    assert_eq!(load_config(r).err(), Some(ConfigError::OutOfRange(ConfigKey::GapTolerance)));
    let mut r = raw_config();
    r.dedup_capacity = Some(0);
    assert_eq!(load_config(r).err(), Some(ConfigError::OutOfRange(ConfigKey::DedupCapacity)));
}

fn entry(symbol: &str) -> FundingRateEntry {
    FundingRateEntry {
        symbol: symbol.to_string(),
        funding_rate: "0.0001".to_string(),
        funding_rate_timestamp: "1700000000000".to_string(),
    }
}

fn response(code: i32, list: Vec<FundingRateEntry>) -> FundingRateResponse {
    FundingRateResponse {
        ret_code: code,
        ret_msg: "msg".to_string(),
        result: FundingRateResult { category: "linear".to_string(), list },
    }
}

#[test]
fn funding_rate_takes_first_entry() {
    let e = latest_funding_rate(response(0, vec![entry("A"), entry("B")])).ok().unwrap();
    assert_eq!(e.symbol, "A");
    assert_eq!(e.funding_rate, "0.0001");
}

#[test]
fn funding_rate_errors() {
    match latest_funding_rate(response(10001, vec![entry("A")])) {
        Err(RestError::Api { code, message }) => {
            assert_eq!(code, 10001);
            assert_eq!(message, "msg");
        },
        _ => panic!("expected an API error"),
    }
    assert!(matches!(latest_funding_rate(response(0, vec![])), Err(RestError::NoEntry)));
}

#[test]
fn clock_skew_offset() {
    assert_eq!(
        ClockSkewSample::measure(1_000, 1_250),
        Some(ClockSkewSample { ts_local_ms: 1_000, server_time_ms: 1_250, offset_ms: 250 })
    );
    assert_eq!(ClockSkewSample::measure(2_000, 1_500).unwrap().offset_ms, -500);
    assert_eq!(ClockSkewSample::measure(-1, i64::MAX), None);
}

#[test]
fn topics_are_classified_by_prefix() {
    assert_eq!(classify_topic("orderbook.50.BTCUSDT"), TopicKind::OrderBook);
    assert_eq!(classify_topic("publicTrade.BTCUSDT"), TopicKind::Trades);
    assert_eq!(classify_topic("orderbook"), TopicKind::Other);
    assert_eq!(classify_topic("tickers.BTCUSDT"), TopicKind::Other);
    assert!(starts_with("abc", ""));
    assert!(!starts_with("ab", "abc"));
}

#[test]
fn sequence_filter_drops_stale_deltas() {
    let mut f = SequenceFilter::new();
    assert!(!f.on_delta(None));
    assert!(f.on_delta(Some(5)));
    assert!(!f.on_delta(Some(5)));
    assert!(!f.on_delta(Some(4)));
    assert!(f.on_delta(Some(6)));
    assert_eq!(f.on_snapshot(Some(2)), 2);
    assert!(f.on_delta(Some(3)));
    assert_eq!(f.on_snapshot(None), 0);
    assert_eq!(f.last_seq, Some(0));
}
