use click_analytics::analytic;
use click_analytics::purger;
use click_analytics::settings::{find, required, required_number, ConfigError};
use click_analytics::shortener;

fn pairs(list: &[(&str, &str)]) -> Vec<(String, String)> {
    list.iter().map(|p| (p.0.to_string(), p.1.to_string())).collect()
}

fn full() -> Vec<(String, String)> {
    pairs(&[
        ("PVLINK_LOG_RETENTION", "30"),
        ("PVLINK_ROOT_DOMAIN", "pv.link"),
        ("PVLINK_FALLBACK_URL", "https://example.org/"),
        ("PVLINK_DB_FQDN", "db.internal:5432"),
        ("PVLINK_DB_USER", "pv"),
        ("PVLINK_DB_PASSWORD", "pw"),
        ("PVLINK_DB_NAME", "links"),
        ("PVLINK_DB_MAX_CONNS", "8"),
        ("PVLINK_CACHE_FQDN", "cache.internal:6379"),
        ("PVLINK_ANALYTIC_QUEUE_FQDN", "queue.internal:4222"),
        ("ANALYTIC_IPINFO_TOKEN", "tok"),
        ("PVLINK_PURGE_INTERVAL_MINUTES", "15"),
    ])
}

fn without(name: &str) -> Vec<(String, String)> {
    full().into_iter().filter(|p| p.0 != name).collect()
}

fn with(name: &str, value: &str) -> Vec<(String, String)> {
    full().into_iter().map(|p| if p.0 == name { (p.0, value.to_string()) } else { p }).collect()
}

fn missing(name: &str) -> ConfigError {
    ConfigError::Missing { name: name.to_string() }
}

fn bad(name: &str) -> ConfigError {
    ConfigError::Bad { name: name.to_string() }
}

#[test]
fn analytic_settings_load() {
    let o = analytic::config::load(&full()).unwrap();
    assert_eq!(o.log_days_retention, 30);
    assert_eq!(o.pg_fqdn, "db.internal:5432");
    assert_eq!(o.pg_username, "pv");
    assert_eq!(o.pg_password, "pw");
    assert_eq!(o.pg_dbname, "links");
    assert_eq!(o.pg_max_conns, 8);
    assert_eq!(o.cache_fqdn, "cache.internal:6379");
    assert_eq!(o.analytic_queue_fqdn, "queue.internal:4222");
    assert_eq!(o.analytic_ipinfo_token, "tok");
    assert_eq!(o.connection_string(), "postgres://pv:pw@db.internal:5432/links");
    assert_eq!(o.cache_address(), "redis://cache.internal:6379");
}

#[test]
fn analytic_settings_name_what_is_missing() {
    for name in [
        "PVLINK_LOG_RETENTION",
        "PVLINK_DB_FQDN",
        "PVLINK_DB_USER",
        "PVLINK_DB_PASSWORD",
        "PVLINK_DB_NAME",
        "PVLINK_DB_MAX_CONNS",
        "PVLINK_CACHE_FQDN",
        "PVLINK_ANALYTIC_QUEUE_FQDN",
        "ANALYTIC_IPINFO_TOKEN",
    ] {
        assert_eq!(analytic::config::load(&without(name)).unwrap_err(), missing(name));
    }
    assert_eq!(
        analytic::config::load(&Vec::new()).unwrap_err(),
        missing("PVLINK_LOG_RETENTION")
    );
}

#[test]
fn analytic_settings_name_what_is_no_number() {
    assert_eq!(
        analytic::config::load(&with("PVLINK_LOG_RETENTION", "many")).unwrap_err(),
        bad("PVLINK_LOG_RETENTION")
    );
    assert_eq!(
        analytic::config::load(&with("PVLINK_DB_MAX_CONNS", "4294967296")).unwrap_err(),
        bad("PVLINK_DB_MAX_CONNS")
    );
    assert_eq!(
        analytic::config::load(&with("PVLINK_DB_MAX_CONNS", "-1")).unwrap_err(),
        bad("PVLINK_DB_MAX_CONNS")
    );
    let o = analytic::config::load(&with("PVLINK_DB_MAX_CONNS", "4294967295")).unwrap();
    assert_eq!(o.pg_max_conns, u32::MAX);
}

#[test]
fn first_failure_in_field_order_is_reported() {
    let vars: Vec<(String, String)> = with("PVLINK_DB_MAX_CONNS", "x")
        .into_iter()
        .filter(|p| p.0 != "PVLINK_CACHE_FQDN" && p.0 != "PVLINK_DB_NAME")
        .collect();
    assert_eq!(analytic::config::load(&vars).unwrap_err(), missing("PVLINK_DB_NAME"));
}

#[test]
fn purger_settings_load() {
    let o = purger::config::load(&full()).unwrap();
    assert_eq!(o.log_days_retention, 30);
    assert_eq!(o.pg_max_conns, 8);
    assert_eq!(o.purge_interval_minutes, 15);
    assert_eq!(o.pg_dbname, "links");
    assert_eq!(
        purger::config::load(&without("PVLINK_PURGE_INTERVAL_MINUTES")).unwrap_err(),
        missing("PVLINK_PURGE_INTERVAL_MINUTES")
    );
    assert_eq!(
        purger::config::load(&with("PVLINK_PURGE_INTERVAL_MINUTES", "18446744073709551616"))
            .unwrap_err(),
        bad("PVLINK_PURGE_INTERVAL_MINUTES")
    );
}

#[test]
fn shortener_settings_load() {
    let o = shortener::config::load(&full()).unwrap();
    assert_eq!(o.server_name, "pv.link");
    assert_eq!(o.fallback_url, "https://example.org/");
    assert_eq!(o.cache_fqdn, "cache.internal:6379");
    assert_eq!(o.analytic_queue_fqdn, "queue.internal:4222");
    assert_eq!(
        shortener::config::load(&without("PVLINK_ROOT_DOMAIN")).unwrap_err(),
        missing("PVLINK_ROOT_DOMAIN")
    );
    assert_eq!(
        shortener::config::load(&without("PVLINK_FALLBACK_URL")).unwrap_err(),
        missing("PVLINK_FALLBACK_URL")
    );
}

#[test]
fn loaded_settings_are_handed_out() {
    let slot = Some(analytic::config::load(&full()).unwrap());
    assert_eq!(analytic::config::object(&slot).pg_max_conns, 8);
    let slot = Some(purger::config::load(&full()).unwrap());
    assert_eq!(purger::config::object(&slot).purge_interval_minutes, 15);
    let slot = Some(shortener::config::load(&full()).unwrap());
    assert_eq!(shortener::config::object(&slot).server_name, "pv.link");
}

#[test]
fn errors_have_texts() {
    assert_eq!(missing("PVLINK_DB_FQDN").message(), "missing 'PVLINK_DB_FQDN'");
    assert_eq!(bad("PVLINK_DB_MAX_CONNS").message(), "bad 'PVLINK_DB_MAX_CONNS' value");
}

#[test]
fn variables_are_found_by_name() {
    let vars = pairs(&[("A", "1"), ("B", "x"), ("A", "2")]);
    assert_eq!(find(&vars, "A"), Some(&"1".to_string()));
    assert_eq!(find(&vars, "C"), None);
    assert_eq!(required(&vars, "B"), Ok("x".to_string()));
    assert_eq!(required(&vars, "C"), Err(missing("C")));
    assert_eq!(required_number(&vars, "A", 10), Ok(1));
    assert_eq!(required_number(&vars, "A", 0), Err(bad("A")));
    assert_eq!(required_number(&vars, "B", 10), Err(bad("B")));
    assert_eq!(required_number(&vars, "C", 10), Err(missing("C")));
}
