use bindizr::config_listing::{checking_text, valid_message_text, valid_text};
use bindizr::config_listing::{
    print_config, ApiSettings, ConfigListing, DatabaseSettings, DnsSettings, LoggingSettings,
    NotifySettings, TransferCacheSettings, ZoneDefaults,
};

fn listing() -> ConfigListing {
    ConfigListing {
        api: ApiSettings {
            listen_addr: "127.0.0.1".to_string(),
            listen_port: 3000,
            authentication_required: true,
            metrics_enabled: false,
            external_dns_enabled: false,
            openapi_enabled: true,
            tls_cert_file: None,
            tls_key_file: Some("/etc/bindizr/key.pem".to_string()),
        },
        database: DatabaseSettings {
            database_type: "sqlite".to_string(),
            mysql_url: "mysql://localhost/bindizr".to_string(),
            sqlite_file_path: "/var/lib/bindizr/bindizr.db".to_string(),
            postgresql_url: "postgres://localhost/bindizr".to_string(),
        },
        dns: DnsSettings {
            listen_addr: "0.0.0.0".to_string(),
            listen_port: 5300,
            secondary_addrs: "127.0.0.1".to_string(),
            zone_history_retention_days: 30,
            scheduler_interval_secs: 60,
            nsupdate_tsig_required: true,
            notify: NotifySettings { after_update: true, on_startup: false, batch_ms: 500, retries: 3, timeout_secs: 5 },
            transfer_cache: TransferCacheSettings { enabled: true, max_records: 100000 },
            zone_defaults: ZoneDefaults { ttl: 3600, refresh: 7200, retry: 900, expire: 1209600, minimum_ttl: 300 },
        },
        logging: LoggingSettings { level: "info".to_string(), format: "text".to_string() },
    }
}

fn v(key: &str, value: &str) -> String {
    format!("  {:<24} = {}", key, value)
}

#[test]
fn the_listing_groups_values_by_section() {
    let lines = print_config(false, &listing());
    let expected = vec![
        "[api]".to_string(),
        v("listen_addr", "127.0.0.1"),
        v("listen_port", "3000"),
        v("authentication_required", "true"),
        v("metrics_enabled", "false"),
        v("external_dns_enabled", "false"),
        v("openapi_enabled", "true"),
        v("tls_cert_file", "(unset)"),
        v("tls_key_file", "/etc/bindizr/key.pem"),
        String::new(),
        "[database]".to_string(),
        v("type", "sqlite"),
        String::new(),
        "[database.mysql]".to_string(),
        v("url", "mysql://localhost/bindizr"),
        String::new(),
        "[database.sqlite]".to_string(),
        v("file_path", "/var/lib/bindizr/bindizr.db"),
        String::new(),
        "[database.postgresql]".to_string(),
        v("url", "postgres://localhost/bindizr"),
        String::new(),
        "[dns]".to_string(),
        v("listen_addr", "0.0.0.0"),
        v("listen_port", "5300"),
        v("secondary_addrs", "127.0.0.1"),
        v("zone_history_retention_days", "30"),
        v("scheduler_interval_secs", "60"),
        v("nsupdate_tsig_required", "true"),
        String::new(),
        "[dns.notify]".to_string(),
        v("after_update", "true"),
        v("on_startup", "false"),
        v("batch_ms", "500"),
        v("retries", "3"),
        v("timeout_secs", "5"),
        String::new(),
        "[dns.transfer_cache]".to_string(),
        v("enabled", "true"),
        v("max_records", "100000"),
        String::new(),
        "[dns.zone_defaults]".to_string(),
        v("ttl", "3600"),
        v("refresh", "7200"),
        v("retry", "900"),
        v("expire", "1209600"),
        v("minimum_ttl", "300"),
        String::new(),
        "[logging]".to_string(),
        v("level", "info"),
        v("format", "text"),
    ];
    assert_eq!(lines, expected);
}

#[test]
fn the_listing_colors_headings_and_keys() {
    let lines = print_config(true, &listing());
    assert_eq!(lines[0], "\x1b[36m[api]\x1b[0m");
    assert_eq!(lines[1], format!("  \x1b[33m{:<24}\x1b[0m = 127.0.0.1", "listen_addr"));
}

#[test]
fn config_check_lines() {
    assert_eq!(checking_text("/etc/bindizr/bindizr.conf.toml"), "Checking configuration file: /etc/bindizr/bindizr.conf.toml");
    assert_eq!(valid_text(false), "Configuration is valid.");
    assert_eq!(valid_text(true), "Configuration is \x1b[32mvalid\x1b[0m.");
    assert_eq!(valid_message_text("/x.toml"), "Configuration file '/x.toml' is valid");
}
