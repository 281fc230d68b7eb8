//! The `config list` listing: the daemon's effective configuration, grouped
//! by section, one key per line; and what `config check` says of a file.

use vstd::prelude::*;
use crate::color::{green, green_text};
use crate::commands::{print_optional, print_section, print_value, section_line, value_line};
use crate::text::{nat_text, push_line, u64_text, views};

verus! {

/// The `api` section. Addresses and other values with a text form of their
/// own are held as that text.
pub struct ApiSettings {
    pub listen_addr: String,
    pub listen_port: u16,
    pub authentication_required: bool,
    pub metrics_enabled: bool,
    pub external_dns_enabled: bool,
    pub openapi_enabled: bool,
    pub tls_cert_file: Option<String>,
    pub tls_key_file: Option<String>,
}

/// The `database` section and its three backends.
pub struct DatabaseSettings {
    pub database_type: String,
    pub mysql_url: String,
    pub sqlite_file_path: String,
    pub postgresql_url: String,
}

/// `dns.notify`.
pub struct NotifySettings {
    pub after_update: bool,
    pub on_startup: bool,
    pub batch_ms: u64,
    pub retries: u64,
    pub timeout_secs: u64,
}

/// `dns.transfer_cache`.
pub struct TransferCacheSettings {
    pub enabled: bool,
    pub max_records: u64,
}

/// `dns.zone_defaults`: the SOA values a new zone starts with.
pub struct ZoneDefaults {
    pub ttl: u64,
    pub refresh: u64,
    pub retry: u64,
    pub expire: u64,
    pub minimum_ttl: u64,
}

/// The `dns` section.
pub struct DnsSettings {
    pub listen_addr: String,
    pub listen_port: u16,
    pub secondary_addrs: String,
    pub zone_history_retention_days: u64,
    pub scheduler_interval_secs: u64,
    pub nsupdate_tsig_required: bool,
    pub notify: NotifySettings,
    pub transfer_cache: TransferCacheSettings,
    pub zone_defaults: ZoneDefaults,
}

/// The `logging` section.
pub struct LoggingSettings {
    pub level: String,
    pub format: String,
}

/// The effective configuration of a running daemon.
pub struct ConfigListing {
    pub api: ApiSettings,
    pub database: DatabaseSettings,
    pub dns: DnsSettings,
    pub logging: LoggingSettings,
}

/// A flag as `Display` writes it.
pub open spec fn bool_text(b: bool) -> Seq<char> {
    if b {
        "true"@
    } else {
        "false"@
    }
}

pub open spec fn unset_or(v: Option<String>) -> Seq<char> {
    match v {
        Some(s) => s@,
        None => "(unset)"@,
    }
}

pub open spec fn api_lines(color: bool, a: ApiSettings) -> Seq<Seq<char>> {
    seq![
        section_line(color, "api"@),
        value_line(color, "listen_addr"@, a.listen_addr@),
        value_line(color, "listen_port"@, nat_text(a.listen_port as nat)),
        value_line(color, "authentication_required"@, bool_text(a.authentication_required)),
        value_line(color, "metrics_enabled"@, bool_text(a.metrics_enabled)),
        value_line(color, "external_dns_enabled"@, bool_text(a.external_dns_enabled)),
        value_line(color, "openapi_enabled"@, bool_text(a.openapi_enabled)),
        value_line(color, "tls_cert_file"@, unset_or(a.tls_cert_file)),
        value_line(color, "tls_key_file"@, unset_or(a.tls_key_file)),
        Seq::empty(),
    ]
}

pub open spec fn database_lines(color: bool, d: DatabaseSettings) -> Seq<Seq<char>> {
    seq![
        section_line(color, "database"@),
        value_line(color, "type"@, d.database_type@),
        Seq::empty(),
        section_line(color, "database.mysql"@),
        value_line(color, "url"@, d.mysql_url@),
        Seq::empty(),
        section_line(color, "database.sqlite"@),
        value_line(color, "file_path"@, d.sqlite_file_path@),
        Seq::empty(),
        section_line(color, "database.postgresql"@),
        value_line(color, "url"@, d.postgresql_url@),
        Seq::empty(),
    ]
}

pub open spec fn dns_lines(color: bool, d: DnsSettings) -> Seq<Seq<char>> {
    seq![
        section_line(color, "dns"@),
        value_line(color, "listen_addr"@, d.listen_addr@),
        value_line(color, "listen_port"@, nat_text(d.listen_port as nat)),
        value_line(color, "secondary_addrs"@, d.secondary_addrs@),
        value_line(
            color,
            "zone_history_retention_days"@,
            nat_text(d.zone_history_retention_days as nat),
        ),
        value_line(color, "scheduler_interval_secs"@, nat_text(d.scheduler_interval_secs as nat)),
        value_line(color, "nsupdate_tsig_required"@, bool_text(d.nsupdate_tsig_required)),
        Seq::empty(),
    ]
}

pub open spec fn notify_lines(color: bool, n: NotifySettings) -> Seq<Seq<char>> {
    seq![
        section_line(color, "dns.notify"@),
        value_line(color, "after_update"@, bool_text(n.after_update)),
        value_line(color, "on_startup"@, bool_text(n.on_startup)),
        value_line(color, "batch_ms"@, nat_text(n.batch_ms as nat)),
        value_line(color, "retries"@, nat_text(n.retries as nat)),
        value_line(color, "timeout_secs"@, nat_text(n.timeout_secs as nat)),
        Seq::empty(),
    ]
}

pub open spec fn cache_lines(color: bool, t: TransferCacheSettings) -> Seq<Seq<char>> {
    seq![
        section_line(color, "dns.transfer_cache"@),
        value_line(color, "enabled"@, bool_text(t.enabled)),
        value_line(color, "max_records"@, nat_text(t.max_records as nat)),
        Seq::empty(),
    ]
}

pub open spec fn zone_default_lines(color: bool, z: ZoneDefaults) -> Seq<Seq<char>> {
    seq![
        section_line(color, "dns.zone_defaults"@),
        value_line(color, "ttl"@, nat_text(z.ttl as nat)),
        value_line(color, "refresh"@, nat_text(z.refresh as nat)),
        value_line(color, "retry"@, nat_text(z.retry as nat)),
        value_line(color, "expire"@, nat_text(z.expire as nat)),
        value_line(color, "minimum_ttl"@, nat_text(z.minimum_ttl as nat)),
        Seq::empty(),
    ]
}

pub open spec fn logging_lines(color: bool, l: LoggingSettings) -> Seq<Seq<char>> {
    seq![
        section_line(color, "logging"@),
        value_line(color, "level"@, l.level@),
        value_line(color, "format"@, l.format@),
    ]
}

/// The listing: each section under its heading, a blank line between
/// sections, and an unset optional value shown as `(unset)`.
pub open spec fn config_lines(color: bool, c: ConfigListing) -> Seq<Seq<char>> {
    api_lines(color, c.api) + database_lines(color, c.database) + dns_lines(color, c.dns)
        + notify_lines(color, c.dns.notify) + cache_lines(color, c.dns.transfer_cache)
        + zone_default_lines(color, c.dns.zone_defaults) + logging_lines(color, c.logging)
}

// ---------------------------------------------------------------------------
// Implementation
// ---------------------------------------------------------------------------

fn bool_string(b: bool) -> (r: String)
    ensures
        r@ == bool_text(b),
{
    if b {
        String::from_str("true")
    } else {
        String::from_str("false")
    }
}

fn push_flag(out: &mut Vec<String>, color: bool, key: &str, b: bool)
    ensures
        views(final(out)@) == views(old(out)@).push(value_line(color, key@, bool_text(b))),
{
    let v = bool_string(b);
    push_line(out, print_value(color, key, v.as_str()));
}

fn push_number(out: &mut Vec<String>, color: bool, key: &str, n: u64)
    ensures
        views(final(out)@) == views(old(out)@).push(value_line(color, key@, nat_text(n as nat))),
{
    let v = u64_text(n);
    push_line(out, print_value(color, key, v.as_str()));
}

fn push_api(out: &mut Vec<String>, color: bool, a: &ApiSettings)
    ensures
        views(final(out)@) == views(old(out)@) + api_lines(color, *a),
{
    let ghost start = views(out@);
    push_line(out, print_section(color, "api"));
    push_line(out, print_value(color, "listen_addr", a.listen_addr.as_str()));
    push_number(out, color, "listen_port", a.listen_port as u64);
    push_flag(out, color, "authentication_required", a.authentication_required);
    push_flag(out, color, "metrics_enabled", a.metrics_enabled);
    push_flag(out, color, "external_dns_enabled", a.external_dns_enabled);
    push_flag(out, color, "openapi_enabled", a.openapi_enabled);
    let cert = match &a.tls_cert_file {
        Some(f) => Some(f.as_str()),
        None => None,
    };
    push_line(out, print_optional(color, "tls_cert_file", cert));
    let key = match &a.tls_key_file {
        Some(f) => Some(f.as_str()),
        None => None,
    };
    push_line(out, print_optional(color, "tls_key_file", key));
    push_line(out, String::new());
    assert(views(out@) =~= start + api_lines(color, *a));
}

fn push_database(out: &mut Vec<String>, color: bool, d: &DatabaseSettings)
    ensures
        views(final(out)@) == views(old(out)@) + database_lines(color, *d),
{
    let ghost start = views(out@);
    push_line(out, print_section(color, "database"));
    push_line(out, print_value(color, "type", d.database_type.as_str()));
    push_line(out, String::new());
    push_line(out, print_section(color, "database.mysql"));
    push_line(out, print_value(color, "url", d.mysql_url.as_str()));
    push_line(out, String::new());
    push_line(out, print_section(color, "database.sqlite"));
    push_line(out, print_value(color, "file_path", d.sqlite_file_path.as_str()));
    push_line(out, String::new());
    push_line(out, print_section(color, "database.postgresql"));
    push_line(out, print_value(color, "url", d.postgresql_url.as_str()));
    push_line(out, String::new());
    assert(views(out@) =~= start + database_lines(color, *d));
}

fn push_dns(out: &mut Vec<String>, color: bool, d: &DnsSettings)
    ensures
        views(final(out)@) == views(old(out)@) + dns_lines(color, *d),
{
    let ghost start = views(out@);
    push_line(out, print_section(color, "dns"));
    push_line(out, print_value(color, "listen_addr", d.listen_addr.as_str()));
    push_number(out, color, "listen_port", d.listen_port as u64);
    push_line(out, print_value(color, "secondary_addrs", d.secondary_addrs.as_str()));
    push_number(out, color, "zone_history_retention_days", d.zone_history_retention_days);
    push_number(out, color, "scheduler_interval_secs", d.scheduler_interval_secs);
    push_flag(out, color, "nsupdate_tsig_required", d.nsupdate_tsig_required);
    push_line(out, String::new());
    assert(views(out@) =~= start + dns_lines(color, *d));
}

fn push_notify(out: &mut Vec<String>, color: bool, n: &NotifySettings)
    ensures
        views(final(out)@) == views(old(out)@) + notify_lines(color, *n),
{
    let ghost start = views(out@);
    push_line(out, print_section(color, "dns.notify"));
    push_flag(out, color, "after_update", n.after_update);
    push_flag(out, color, "on_startup", n.on_startup);
    push_number(out, color, "batch_ms", n.batch_ms);
    push_number(out, color, "retries", n.retries);
    push_number(out, color, "timeout_secs", n.timeout_secs);
    push_line(out, String::new());
    assert(views(out@) =~= start + notify_lines(color, *n));
}

fn push_cache_and_defaults(out: &mut Vec<String>, color: bool, t: &TransferCacheSettings, z: &ZoneDefaults)
    ensures
        views(final(out)@) == views(old(out)@) + cache_lines(color, *t) + zone_default_lines(color, *z),
{
    let ghost start = views(out@);
    push_line(out, print_section(color, "dns.transfer_cache"));
    push_flag(out, color, "enabled", t.enabled);
    push_number(out, color, "max_records", t.max_records);
    push_line(out, String::new());
    let ghost mid = views(out@);
    assert(mid =~= start + cache_lines(color, *t));
    push_line(out, print_section(color, "dns.zone_defaults"));
    push_number(out, color, "ttl", z.ttl);
    push_number(out, color, "refresh", z.refresh);
    push_number(out, color, "retry", z.retry);
    push_number(out, color, "expire", z.expire);
    push_number(out, color, "minimum_ttl", z.minimum_ttl);
    push_line(out, String::new());
    assert(views(out@) =~= mid + zone_default_lines(color, *z));
}

/// Configuration values grouped by section (the lines to print).
pub fn print_config(color: bool, config: &ConfigListing) -> (r: Vec<String>)
    ensures
        views(r@) == config_lines(color, *config),
{
    let mut r: Vec<String> = Vec::new();
    push_api(&mut r, color, &config.api);
    assert(views(r@) =~= api_lines(color, config.api));
    push_database(&mut r, color, &config.database);
    push_dns(&mut r, color, &config.dns);
    push_notify(&mut r, color, &config.dns.notify);
    push_cache_and_defaults(&mut r, color, &config.dns.transfer_cache, &config.dns.zone_defaults);
    let ghost before = views(r@);
    push_line(&mut r, print_section(color, "logging"));
    push_line(&mut r, print_value(color, "level", config.logging.level.as_str()));
    push_line(&mut r, print_value(color, "format", config.logging.format.as_str()));
    assert(views(r@) =~= before + logging_lines(color, config.logging));
    r
}

// ---------------------------------------------------------------------------
// Validation
// ---------------------------------------------------------------------------

/// What `config check` says of a configuration file, in table form: the file
/// it checks, then, once the file has loaded, that it is valid. The
/// document forms carry the message instead.
pub open spec fn checking_line(path: Seq<char>) -> Seq<char> {
    "Checking configuration file: "@ + path
}

pub open spec fn valid_line(color: bool) -> Seq<char> {
    "Configuration is "@ + green_text(color, "valid"@) + "."@
}

pub open spec fn valid_message(path: Seq<char>) -> Seq<char> {
    "Configuration file '"@ + path + "' is valid"@
}

/// The line naming the file being checked.
pub fn checking_text(path: &str) -> (r: String)
    ensures
        r@ == checking_line(path@),
{
    let mut line = String::from_str("Checking configuration file: ");
    line.append(path);
    line
}

/// The verdict line of a file that loaded.
pub fn valid_text(color: bool) -> (r: String)
    ensures
        r@ == valid_line(color),
{
    let mut line = String::from_str("Configuration is ");
    line.append(green(color, "valid").as_str());
    line.append(".");
    line
}

/// The message the document forms carry for a file that loaded.
pub fn valid_message_text(path: &str) -> (r: String)
    ensures
        r@ == valid_message(path@),
{
    let mut m = String::from_str("Configuration file '");
    m.append(path);
    m.append("' is valid");
    m
}

} // verus!
