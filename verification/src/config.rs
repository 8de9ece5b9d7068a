//! Settings of the trading core, and the environment it runs in.

use vstd::prelude::*;
use vstd::string::StringExecFns;
use crate::decimal::{Decimal, DecimalValue};
use crate::text::{lowercase, nat_digits, number_text, same_text, split_on, split_trimmed, to_lowercase, trim};

verus! {

/// Where the core is deployed.
#[derive(Debug, Clone, Copy, PartialEq, Eq, Structural)]
pub enum Environment {
    Development,
    Test,
    Production,
}

impl Default for Environment {
    fn default() -> (environment: Environment)
        ensures
            environment == Environment::Development,
    {
        Environment::Development
    }
}

impl Environment {
    /// The name of the environment, in lower case.
    pub open spec fn name(self) -> Seq<char> {
        match self {
            Environment::Development => "development"@,
            Environment::Test => "test"@,
            Environment::Production => "production"@,
        }
    }

    /// Get a display name for logging
    pub fn as_str(&self) -> (name: &'static str)
        ensures
            name@ == self.name(),
    {
        match self {
            Environment::Development => "development",
            Environment::Test => "test",
            Environment::Production => "production",
        }
    }

    /// The environment that `text` names, whatever the case of its letters.
    pub open spec fn named(text: Seq<char>) -> Option<Environment> {
        let name = lowercase(text);
        if name == "dev"@ || name == "development"@ {
            Some(Environment::Development)
        } else if name == "test"@ || name == "testing"@ {
            Some(Environment::Test)
        } else if name == "prod"@ || name == "production"@ {
            Some(Environment::Production)
        } else {
            None
        }
    }

    /// Reads an environment from its name or short name; the error names the text.
    pub fn parse(text: &str) -> (r: Result<Environment, String>)
        ensures
            match r {
                Ok(environment) => Environment::named(text@) == Some(environment),
                Err(message) => Environment::named(text@) is None && message@
                    == "Unknown environment: "@ + text@,
            },
    {
        let name: String = to_lowercase(text);
        if same_text(name.as_str(), "dev") || same_text(name.as_str(), "development") {
            Ok(Environment::Development)
        } else if same_text(name.as_str(), "test") || same_text(name.as_str(), "testing") {
            Ok(Environment::Test)
        } else if same_text(name.as_str(), "prod") || same_text(name.as_str(), "production") {
            Ok(Environment::Production)
        } else {
            Err(String::from_str("Unknown environment: ").concat(text))
        }
    }

    /// The environment that the two settings select: the first where it is
    /// set, else the second; development where the chosen one is unset or
    /// names no environment.
    pub open spec fn selected(primary: Option<Seq<char>>, secondary: Option<Seq<char>>) -> Environment {
        let chosen = if primary is Some { primary } else { secondary };
        match chosen {
            Some(text) => match Environment::named(text) {
                Some(environment) => environment,
                None => Environment::Development,
            },
            None => Environment::Development,
        }
    }

    /// Detects the environment from the values of the variables `APP_ENV`
    /// and `ENVIRONMENT`, each `None` where unset.
    pub fn detect_from(app_env: Option<&str>, environment: Option<&str>) -> (detected: Environment)
        ensures
            detected == Environment::selected(
                match app_env {
                    Some(t) => Some(t@),
                    None => None,
                },
                match environment {
                    Some(t) => Some(t@),
                    None => None,
                },
            ),
    {
        let chosen: Option<&str> = if app_env.is_some() { app_env } else { environment };
        match chosen {
            Some(text) => match Environment::parse(text) {
                Ok(detected) => detected,
                Err(_) => Environment::Development,
            },
            None => Environment::Development,
        }
    }
}

impl std::str::FromStr for Environment {
    type Err = String;

    /// Reads an environment as [`Environment::parse`] does.
    fn from_str(s: &str) -> (r: Result<Self, Self::Err>)
        ensures
            match r {
                Ok(environment) => Environment::named(s@) == Some(environment),
                Err(message) => Environment::named(s@) is None && message@
                    == "Unknown environment: "@ + s@,
            },
    {
        Environment::parse(s)
    }
}

#[derive(Debug, Clone)]
pub struct GrpcSettings {
    pub port: u16,
    pub host: String,
    pub max_concurrent_streams: u32,
    pub keepalive_interval_sec: u64,
    pub keepalive_timeout_sec: u64,
}

#[derive(Debug, Clone)]
pub struct DatabaseSettings {
    pub max_connections: u32,
    pub min_connections: u32,
    pub connect_timeout_sec: u64,
}

#[derive(Debug, Clone)]
pub struct ExchangeSettings {
    pub okx_ws_public_url: String,
    pub okx_ws_private_url: String,
    pub okx_ws_business_url: String,
    pub okx_rest_url: String,
    pub ws_reconnect_delay_ms: u64,
    pub ws_max_reconnect_attempts: u32,
    pub ws_ping_interval_sec: u64,
    /// Credentials come from the environment only; `None` where unset.
    pub okx_api_key: Option<String>,
    pub okx_api_secret: Option<String>,
    pub okx_api_passphrase: Option<String>,
    pub binance_api_key: Option<String>,
    pub binance_api_secret: Option<String>,
}

#[derive(Debug, Clone)]
pub struct TradingSettings {
    pub order_timeout_sec: u64,
    pub max_pending_orders: u32,
    pub order_retry_attempts: u32,
    pub max_position_size: Decimal,
    pub max_leverage: Decimal,
    pub stop_loss_percentage: Decimal,
    pub take_profit_percentage: Decimal,
    pub tick_buffer_size: usize,
    pub orderbook_depth: u32,
    pub kline_intervals: String,
}

#[derive(Debug, Clone)]
pub struct PerformanceSettings {
    pub tokio_worker_threads: usize,
    pub rayon_num_threads: usize,
}

#[derive(Debug, Clone)]
pub struct MonitoringSettings {
    pub enable_metrics: bool,
    pub metrics_port: u16,
    pub metrics_interval_sec: u64,
}

#[derive(Debug, Clone)]
pub struct FeatureFlags {
    pub enable_paper_trading: bool,
    pub enable_debug_endpoints: bool,
    pub enable_backtesting: bool,
}

#[derive(Debug, Clone)]
pub struct Settings {
    pub environment: Environment,
    pub rust_log: String,
    pub rust_backtrace: String,
    pub grpc: GrpcSettings,
    pub database: DatabaseSettings,
    pub exchange: ExchangeSettings,
    pub trading: TradingSettings,
    pub performance: PerformanceSettings,
    pub monitoring: MonitoringSettings,
    pub features: FeatureFlags,
}

/// The whole number `n` as an amount.
pub open spec fn whole(n: int) -> DecimalValue {
    DecimalValue { mantissa: n, scale: 0 }
}

impl Settings {
    /// The built-in settings, field by field.
    pub open spec fn is_default(self) -> bool {
        &&& self.environment == Environment::Development
        &&& self.rust_log@ == "info,kairos_core=debug"@
        &&& self.rust_backtrace@ == "1"@
        &&& self.grpc.port == 50051
        &&& self.grpc.host@ == "0.0.0.0"@
        &&& self.grpc.max_concurrent_streams == 100
        &&& self.grpc.keepalive_interval_sec == 30
        &&& self.grpc.keepalive_timeout_sec == 10
        &&& self.database.max_connections == 10
        &&& self.database.min_connections == 2
        &&& self.database.connect_timeout_sec == 5
        &&& self.exchange.okx_ws_public_url@ == "wss://ws.okx.com:8443/ws/v5/public"@
        &&& self.exchange.okx_ws_private_url@ == "wss://ws.okx.com:8443/ws/v5/private"@
        &&& self.exchange.okx_ws_business_url@ == "wss://ws.okx.com:8443/ws/v5/business"@
        &&& self.exchange.okx_rest_url@ == "https://www.okx.com"@
        &&& self.exchange.ws_reconnect_delay_ms == 5000
        &&& self.exchange.ws_max_reconnect_attempts == 10
        &&& self.exchange.ws_ping_interval_sec == 20
        &&& self.exchange.okx_api_key is None
        &&& self.exchange.okx_api_secret is None
        &&& self.exchange.okx_api_passphrase is None
        &&& self.exchange.binance_api_key is None
        &&& self.exchange.binance_api_secret is None
        &&& self.trading.order_timeout_sec == 30
        &&& self.trading.max_pending_orders == 100
        &&& self.trading.order_retry_attempts == 3
        &&& self.trading.max_position_size@ == whole(1000)
        &&& self.trading.max_leverage@ == whole(3)
        &&& self.trading.stop_loss_percentage@ == whole(2)
        &&& self.trading.take_profit_percentage@ == whole(5)
        &&& self.trading.tick_buffer_size == 1000
        &&& self.trading.orderbook_depth == 20
        &&& self.trading.kline_intervals@ == "1m,5m,15m,1h,4h,1d"@
        &&& self.performance.tokio_worker_threads == 4
        &&& self.performance.rayon_num_threads == 4
        &&& self.monitoring.enable_metrics
        &&& self.monitoring.metrics_port == 9090
        &&& self.monitoring.metrics_interval_sec == 60
        &&& !self.features.enable_paper_trading
        &&& !self.features.enable_debug_endpoints
        &&& !self.features.enable_backtesting
    }

    /// The text of [`Settings::grpc_address`]: host, a colon, the port in digits.
    pub open spec fn spec_grpc_address(self) -> Seq<char> {
        self.grpc.host@ + seq![':'] + nat_digits(self.grpc.port as nat)
    }

    /// Get gRPC server address
    pub fn grpc_address(&self) -> (address: String)
        ensures
            address@ == self.spec_grpc_address(),
    {
        proof {
            reveal_strlit(":");
            assert(":"@ =~= seq![':']);
        }
        let mut address: String = self.grpc.host.clone();
        address.append(":");
        address.append(number_text(self.grpc.port as u64).as_str());
        address
    }

    /// Get parsed kline intervals: the pieces of the setting between commas,
    /// each without the white space around it.
    pub fn get_kline_intervals(&self) -> (intervals: Vec<String>)
        ensures
            intervals.len() == split_on(self.trading.kline_intervals@, ',').len(),
            forall|i: int|
                0 <= i < intervals.len() ==> (#[trigger] intervals[i])@ == trim(
                    split_on(self.trading.kline_intervals@, ',')[i],
                ),
    {
        split_trimmed(self.trading.kline_intervals.as_str(), ',')
    }
}

/// One layer of configuration files.
#[derive(Debug, Clone)]
pub struct ConfigFile {
    /// The name of the file, without its extension.
    pub name: String,
    /// Whether loading fails where the file is absent.
    pub required: bool,
}

/// The prefix of the environment variables that override the files.
pub const ENV_PREFIX: &'static str = "KAIROS";

/// What separates the prefix and the levels of a setting in a variable's name.
pub const ENV_SEPARATOR: &'static str = "__";

/// The layers of files for `environment`, each overriding the ones before
/// it: the defaults, which must exist; the environment's own file; and local
/// overrides.
pub fn config_files(environment: Environment) -> (files: Vec<ConfigFile>)
    ensures
        files.len() == 3,
        files[0].name@ == "config/default"@ && files[0].required,
        files[1].name@ == "config/"@ + environment.name() && !files[1].required,
        files[2].name@ == "config/local"@ && !files[2].required,
{
    let mut files: Vec<ConfigFile> = Vec::new();
    files.push(ConfigFile { name: String::from_str("config/default"), required: true });
    files.push(
        ConfigFile {
            name: String::from_str("config/").concat(environment.as_str()),
            required: false,
        },
    );
    files.push(ConfigFile { name: String::from_str("config/local"), required: false });
    files
}

impl Default for Settings {
    fn default() -> (settings: Settings)
        ensures
            settings.is_default(),
    {
        Settings {
            environment: Environment::Development,
            rust_log: String::from_str("info,kairos_core=debug"),
            rust_backtrace: String::from_str("1"),
            grpc: GrpcSettings {
                port: 50051,
                host: String::from_str("0.0.0.0"),
                max_concurrent_streams: 100,
                keepalive_interval_sec: 30,
                keepalive_timeout_sec: 10,
            },
            database: DatabaseSettings {
                max_connections: 10,
                min_connections: 2,
                connect_timeout_sec: 5,
            },
            exchange: ExchangeSettings {
                okx_ws_public_url: String::from_str("wss://ws.okx.com:8443/ws/v5/public"),
                okx_ws_private_url: String::from_str("wss://ws.okx.com:8443/ws/v5/private"),
                okx_ws_business_url: String::from_str("wss://ws.okx.com:8443/ws/v5/business"),
                okx_rest_url: String::from_str("https://www.okx.com"),
                ws_reconnect_delay_ms: 5000,
                ws_max_reconnect_attempts: 10,
                ws_ping_interval_sec: 20,
                okx_api_key: None,
                okx_api_secret: None,
                okx_api_passphrase: None,
                binance_api_key: None,
                binance_api_secret: None,
            },
            trading: TradingSettings {
                order_timeout_sec: 30,
                max_pending_orders: 100,
                order_retry_attempts: 3,
                max_position_size: Decimal::from_i64(1000),
                max_leverage: Decimal::from_i64(3),
                stop_loss_percentage: Decimal::from_i64(2),
                take_profit_percentage: Decimal::from_i64(5),
                tick_buffer_size: 1000,
                orderbook_depth: 20,
                kline_intervals: String::from_str("1m,5m,15m,1h,4h,1d"),
            },
            performance: PerformanceSettings { tokio_worker_threads: 4, rayon_num_threads: 4 },
            monitoring: MonitoringSettings {
                enable_metrics: true,
                metrics_port: 9090,
                metrics_interval_sec: 60,
            },
            features: FeatureFlags {
                enable_paper_trading: false,
                enable_debug_endpoints: false,
                enable_backtesting: false,
            },
        }
    }
}

} // verus!
