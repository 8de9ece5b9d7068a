use kairos::config::{config_files, Environment, Settings, ENV_PREFIX, ENV_SEPARATOR};
use kairos::configuration::Settings as CredentialSettings;
use kairos::logging::{
    format_for, log_file_name, logs_to_delete, plan_logging, rotation_for, LogFile, LogFormat,
    LogRotation, LoggingSettings,
};

#[test]
fn test_default_settings() {
    let settings = Settings::default();
    assert_eq!(settings.grpc.port, 50051);
    assert_eq!(settings.grpc.host, "0.0.0.0");
}

#[test]
fn test_grpc_address() {
    let settings = Settings::default();
    assert_eq!(settings.grpc_address(), "0.0.0.0:50051");
}

#[test]
fn test_kline_intervals_parsing() {
    let settings = Settings::default();
    let intervals = settings.get_kline_intervals();
    assert_eq!(intervals, vec!["1m", "5m", "15m", "1h", "4h", "1d"]);
}

#[test]
fn kline_intervals_are_trimmed_and_keep_empty_pieces() {
    let mut settings = Settings::default();
    settings.trading.kline_intervals = " 1m ,\t5m\u{a0},, 1 h ,".to_string();
    assert_eq!(settings.get_kline_intervals(), vec!["1m", "5m", "", "1 h", ""]);
    settings.trading.kline_intervals = String::new();
    assert_eq!(settings.get_kline_intervals(), vec![""]);
    settings.trading.kline_intervals = "   ".to_string();
    assert_eq!(settings.get_kline_intervals(), vec![""]);
}

#[test]
fn default_settings_field_by_field() {
    let s = Settings::default();
    assert_eq!(s.environment, Environment::Development);
    assert_eq!(s.rust_log, "info,kairos_core=debug");
    assert_eq!(s.rust_backtrace, "1");
    assert_eq!(s.grpc.max_concurrent_streams, 100);
    assert_eq!(s.grpc.keepalive_interval_sec, 30);
    assert_eq!(s.grpc.keepalive_timeout_sec, 10);
    assert_eq!(s.database.max_connections, 10);
    assert_eq!(s.database.min_connections, 2);
    assert_eq!(s.database.connect_timeout_sec, 5);
    assert_eq!(s.exchange.okx_ws_public_url, "wss://ws.okx.com:8443/ws/v5/public");
    assert_eq!(s.exchange.okx_ws_private_url, "wss://ws.okx.com:8443/ws/v5/private");
    assert_eq!(s.exchange.okx_ws_business_url, "wss://ws.okx.com:8443/ws/v5/business");
    assert_eq!(s.exchange.okx_rest_url, "https://www.okx.com");
    assert_eq!(s.exchange.ws_reconnect_delay_ms, 5000);
    assert_eq!(s.exchange.ws_max_reconnect_attempts, 10);
    assert_eq!(s.exchange.ws_ping_interval_sec, 20);
    assert!(s.exchange.okx_api_key.is_none());
    assert!(s.exchange.okx_api_secret.is_none());
    assert!(s.exchange.okx_api_passphrase.is_none());
    assert!(s.exchange.binance_api_key.is_none());
    assert!(s.exchange.binance_api_secret.is_none());
    assert_eq!(s.trading.order_timeout_sec, 30);
    assert_eq!(s.trading.max_pending_orders, 100);
    assert_eq!(s.trading.order_retry_attempts, 3);
    assert_eq!(s.trading.max_position_size.to_text(), "1000");
    assert_eq!(s.trading.max_leverage.to_text(), "3");
    assert_eq!(s.trading.stop_loss_percentage.to_text(), "2");
    assert_eq!(s.trading.take_profit_percentage.to_text(), "5");
    assert_eq!(s.trading.tick_buffer_size, 1000);
    assert_eq!(s.trading.orderbook_depth, 20);
    assert_eq!(s.trading.kline_intervals, "1m,5m,15m,1h,4h,1d");
    assert_eq!(s.performance.tokio_worker_threads, 4);
    assert_eq!(s.performance.rayon_num_threads, 4);
    assert!(s.monitoring.enable_metrics);
    assert_eq!(s.monitoring.metrics_port, 9090);
    assert_eq!(s.monitoring.metrics_interval_sec, 60);
    assert!(!s.features.enable_paper_trading);
    assert!(!s.features.enable_debug_endpoints);
    assert!(!s.features.enable_backtesting);
}

#[test]
fn grpc_address_writes_the_port_in_digits() {
    let mut settings = Settings::default();
    settings.grpc.host = "localhost".to_string();
    settings.grpc.port = 0;
    assert_eq!(settings.grpc_address(), "localhost:0");
    settings.grpc.port = 65535;
    assert_eq!(settings.grpc_address(), "localhost:65535");
    settings.grpc.port = 8080;
    assert_eq!(settings.grpc_address(), "localhost:8080");
}

#[test]
fn environment_names() {
    assert_eq!(Environment::Development.as_str(), "development");
    assert_eq!(Environment::Test.as_str(), "test");
    assert_eq!(Environment::Production.as_str(), "production");
    assert_eq!(Environment::default(), Environment::Development);
}

#[test]
fn environment_is_read_whatever_the_case() {
    for (text, expected) in [
        ("dev", Environment::Development),
        ("Development", Environment::Development),
        ("TEST", Environment::Test),
        ("testing", Environment::Test),
        ("Prod", Environment::Production),
        ("PRODUCTION", Environment::Production),
    ] {
        assert_eq!(Environment::parse(text), Ok(expected));
        assert_eq!(text.parse::<Environment>(), Ok(expected));
    }
    assert_eq!(Environment::parse("staging"), Err("Unknown environment: staging".to_string()));
    assert_eq!(Environment::parse(""), Err("Unknown environment: ".to_string()));
    assert_eq!(Environment::parse(" dev"), Err("Unknown environment:  dev".to_string()));
}

#[test]
fn environment_is_detected_from_the_first_variable_set() {
    assert_eq!(Environment::detect_from(None, None), Environment::Development);
    assert_eq!(Environment::detect_from(Some("prod"), None), Environment::Production);
    assert_eq!(Environment::detect_from(None, Some("test")), Environment::Test);
    assert_eq!(Environment::detect_from(Some("TEST"), Some("prod")), Environment::Test);
    assert_eq!(Environment::detect_from(Some("bogus"), Some("prod")), Environment::Development);
}

#[test]
fn configuration_layers() {
    let files = config_files(Environment::Production);
    let seen: Vec<(String, bool)> = files.into_iter().map(|f| (f.name, f.required)).collect();
    assert_eq!(
        seen,
        vec![
            ("config/default".to_string(), true),
            ("config/production".to_string(), false),
            ("config/local".to_string(), false),
        ]
    );
    assert_eq!(ENV_PREFIX, "KAIROS");
    assert_eq!(ENV_SEPARATOR, "__");
}

#[test]
fn dotenv_path_defaults_to_dev() {
    assert_eq!(CredentialSettings::dotenv_path(None), ".env.dev");
    assert_eq!(CredentialSettings::dotenv_path(Some("prod")), ".env.prod");
}

fn logging(file: bool, console: &str, file_format: &str, rotation: &str) -> LoggingSettings {
    LoggingSettings {
        rust_log: "info".to_string(),
        rust_backtrace: "1".to_string(),
        enable_file_logging: file,
        log_directory: "logs".to_string(),
        rotation: rotation.to_string(),
        log_file_prefix: "kairos".to_string(),
        console_format: console.to_string(),
        file_format: file_format.to_string(),
        max_log_files: 3,
    }
}

#[test]
fn logging_plan_follows_the_settings() {
    let plan = plan_logging(&logging(true, "json", "human", "hourly"));
    assert_eq!(plan.filter, "info");
    assert_eq!(plan.backtrace, "1");
    assert_eq!(plan.console, LogFormat::Json);
    let file = plan.file.unwrap();
    assert_eq!(file.directory, "logs");
    assert_eq!(file.file_name, "kairos.log");
    assert_eq!(file.rotation, LogRotation::Hourly);
    assert_eq!(file.format, LogFormat::Human);

    let plan = plan_logging(&logging(true, "pretty", "json", "weekly"));
    assert_eq!(plan.console, LogFormat::Human);
    let file = plan.file.unwrap();
    assert_eq!(file.rotation, LogRotation::Daily);
    assert_eq!(file.format, LogFormat::Json);

    let plan = plan_logging(&logging(false, "json", "json", "hourly"));
    assert_eq!(plan.console, LogFormat::Human);
    assert!(plan.file.is_none());
}

#[test]
fn rotation_and_format_names() {
    assert_eq!(rotation_for("hourly"), LogRotation::Hourly);
    assert_eq!(rotation_for("daily"), LogRotation::Daily);
    assert_eq!(rotation_for("Hourly"), LogRotation::Daily);
    assert_eq!(format_for("json"), LogFormat::Json);
    assert_eq!(format_for("human"), LogFormat::Human);
    assert_eq!(format_for("JSON"), LogFormat::Human);
    assert_eq!(log_file_name("kairos-core"), "kairos-core.log");
}

fn file(name: &str, modified: u64) -> LogFile {
    LogFile { name: name.to_string(), modified }
}

#[test]
fn oldest_logs_make_room() {
    let files = vec![
        file("kairos.log.3", 30),
        file("other.log", 1),
        file("kairos.log.1", 10),
        file("kairos.log.5", 50),
        file("kairos.log.2", 20),
        file("kairos.log.4", 40),
    ];
    assert_eq!(logs_to_delete(&files, "kairos", 3), vec![2, 4]);
    assert_eq!(logs_to_delete(&files, "kairos", 5), Vec::<usize>::new());
    assert_eq!(logs_to_delete(&files, "kairos", 9), Vec::<usize>::new());
    assert_eq!(logs_to_delete(&files, "kairos", 1), vec![0, 2, 4, 5]);
    assert_eq!(logs_to_delete(&files, "kairos", 0), Vec::<usize>::new());
    assert_eq!(logs_to_delete(&files, "", 5), vec![1]);
    assert_eq!(logs_to_delete(&files, "absent", 1), Vec::<usize>::new());
    assert_eq!(logs_to_delete(&Vec::new(), "kairos", 1), Vec::<usize>::new());
}

#[test]
fn logs_of_one_age_go_in_listing_order() {
    let files = vec![file("k.a", 7), file("k.b", 7), file("k.c", 7), file("k.d", 0)];
    assert_eq!(logs_to_delete(&files, "k", 3), vec![3]);
    assert_eq!(logs_to_delete(&files, "k", 2), vec![0, 3]);
    assert_eq!(logs_to_delete(&files, "k", 1), vec![0, 1, 3]);
}
