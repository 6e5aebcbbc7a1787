//! Process configuration, checked once at startup.
use vstd::prelude::*;

verus! {

/// Gap tolerance when the configuration names none.
pub const DEFAULT_GAP_TOLERANCE: u64 = 1000;

/// Dedup cache capacity when the configuration names none.
pub const DEFAULT_DEDUP_CAPACITY: usize = 10000;

pub struct ExchangeConfig {
    pub symbols: Vec<String>,
}

pub struct WebSocketConfig {
    pub url: String,
    pub ping_interval_secs: u64,
}

pub struct LoggingConfig {
    pub level: String,
    pub save_logs: bool,
    pub log_file_path: String,
    pub rewrite_last_logs: bool,
}

/// Settings of the reconciliation and trade paths.
pub struct SyncConfig {
    pub gap_tolerance: u64,
    pub dedup_capacity: usize,
}

pub struct AppConfig {
    pub exchange: ExchangeConfig,
    pub websocket: WebSocketConfig,
    pub logging: LoggingConfig,
    pub sync: SyncConfig,
}

/// The settings as read from the configuration source, each absent where
/// the source does not set it.
pub struct RawConfig {
    pub symbols: Vec<String>,
    pub url: Option<String>,
    pub ping_interval_secs: Option<i64>,
    pub log_level: Option<String>,
    pub save_logs: Option<bool>,
    pub log_file_path: Option<String>,
    pub rewrite_last_logs: Option<bool>,
    pub gap_tolerance: Option<i64>,
    pub dedup_capacity: Option<i64>,
}

/// A setting.
#[derive(Clone, Copy, Debug, PartialEq, Eq, Structural)]
pub enum ConfigKey {
    Symbols,
    Url,
    PingIntervalSecs,
    LogLevel,
    SaveLogs,
    LogFilePath,
    RewriteLastLogs,
    GapTolerance,
    DedupCapacity,
}

/// Why a configuration is refused.
#[derive(Clone, Copy, Debug, PartialEq, Eq, Structural)]
pub enum ConfigError {
    /// A required setting is absent.
    Missing(ConfigKey),
    /// A setting is outside its range.
    OutOfRange(ConfigKey),
}

/// The first fault of a configuration, in the order of its settings: no
/// symbol; a required setting absent; a keep-alive interval that is not
/// positive; a negative gap tolerance; a dedup capacity below one or beyond
/// `usize`.
pub open spec fn config_fault(raw: RawConfig) -> Option<ConfigError> {
    if raw.symbols@.len() == 0 {
        Some(ConfigError::Missing(ConfigKey::Symbols))
    } else if raw.url is None {
        Some(ConfigError::Missing(ConfigKey::Url))
    } else if raw.ping_interval_secs is None {
        Some(ConfigError::Missing(ConfigKey::PingIntervalSecs))
    } else if raw.ping_interval_secs->0 <= 0 {
        Some(ConfigError::OutOfRange(ConfigKey::PingIntervalSecs))
    } else if raw.log_level is None {
        Some(ConfigError::Missing(ConfigKey::LogLevel))
    } else if raw.save_logs is None {
        Some(ConfigError::Missing(ConfigKey::SaveLogs))
    } else if raw.log_file_path is None {
        Some(ConfigError::Missing(ConfigKey::LogFilePath))
    } else if raw.rewrite_last_logs is None {
        Some(ConfigError::Missing(ConfigKey::RewriteLastLogs))
    } else if raw.gap_tolerance matches Some(g) && g < 0 {
        Some(ConfigError::OutOfRange(ConfigKey::GapTolerance))
    } else if raw.dedup_capacity matches Some(c) && (c < 1 || c > usize::MAX) {
        Some(ConfigError::OutOfRange(ConfigKey::DedupCapacity))
    } else {
        None
    }
}

/// Checks the settings read from the configuration source and assembles
/// them; the gap tolerance and dedup capacity take their defaults where
/// unset.
pub fn load_config(raw: RawConfig) -> (r: Result<AppConfig, ConfigError>)
    ensures
        config_fault(raw) matches Some(e) ==> r == Err::<AppConfig, ConfigError>(e),
        config_fault(raw) is None ==> r is Ok,
        r matches Ok(c) ==> {
            &&& c.exchange.symbols@ == raw.symbols@
            &&& c.websocket.url@ == raw.url->0@
            &&& c.websocket.ping_interval_secs == raw.ping_interval_secs->0
            &&& c.logging.level@ == raw.log_level->0@
            &&& c.logging.save_logs == raw.save_logs->0
            &&& c.logging.log_file_path@ == raw.log_file_path->0@
            &&& c.logging.rewrite_last_logs == raw.rewrite_last_logs->0
            &&& c.sync.gap_tolerance == match raw.gap_tolerance {
                Some(g) => g as u64,
                None => DEFAULT_GAP_TOLERANCE,
            }
            &&& c.sync.dedup_capacity == match raw.dedup_capacity {
                Some(n) => n as usize,
                None => DEFAULT_DEDUP_CAPACITY,
            }
        },
{
    if raw.symbols.len() == 0 {
        return Err(ConfigError::Missing(ConfigKey::Symbols));
    }
    let url = match raw.url {
        Some(u) => u,
        None => return Err(ConfigError::Missing(ConfigKey::Url)),
    };
    let ping = match raw.ping_interval_secs {
        Some(p) => p,
        None => return Err(ConfigError::Missing(ConfigKey::PingIntervalSecs)),
    };
    if ping <= 0 {
        return Err(ConfigError::OutOfRange(ConfigKey::PingIntervalSecs));
    }
    let level = match raw.log_level {
        Some(l) => l,
        None => return Err(ConfigError::Missing(ConfigKey::LogLevel)),
    };
    let save_logs = match raw.save_logs {
        Some(b) => b,
        None => return Err(ConfigError::Missing(ConfigKey::SaveLogs)),
    };
    let log_file_path = match raw.log_file_path {
        Some(p) => p,
        None => return Err(ConfigError::Missing(ConfigKey::LogFilePath)),
    };
    let rewrite_last_logs = match raw.rewrite_last_logs {
        Some(b) => b,
        None => return Err(ConfigError::Missing(ConfigKey::RewriteLastLogs)),
    };
    let gap_tolerance: u64 = match raw.gap_tolerance {
        Some(g) => {
            if g < 0 {
                return Err(ConfigError::OutOfRange(ConfigKey::GapTolerance));
            }
            g as u64
        },
        None => DEFAULT_GAP_TOLERANCE,
    };
    let dedup_capacity: usize = match raw.dedup_capacity {
        Some(c) => {
            if c < 1 || c as u64 > usize::MAX as u64 {
                return Err(ConfigError::OutOfRange(ConfigKey::DedupCapacity));
            }
            c as usize
        },
        None => DEFAULT_DEDUP_CAPACITY,
    };
    Ok(
        AppConfig {
            exchange: ExchangeConfig { symbols: raw.symbols },
            websocket: WebSocketConfig { url, ping_interval_secs: ping as u64 },
            logging: LoggingConfig { level, save_logs, log_file_path, rewrite_last_logs },
            sync: SyncConfig { gap_tolerance, dedup_capacity },
        },
    )
}

} // verus!
