use cc_workbench::config::{Config, ConfigFile, ProviderConfig};
use cc_workbench::usage::{
    curl_args, fetch_http_usage, fetched_body, usage_from_figures, usage_from_response,
    HttpJsonConfig, UsageManager,
};

fn http(name: &str) -> ProviderConfig {
    ProviderConfig::HttpJson {
        name: name.to_string(),
        url: "https://quota.example/api".to_string(),
        method: None,
        headers: None,
        body: None,
        used_pointer: "/data/used".to_string(),
        limit_pointer: "/data/limit".to_string(),
    }
}

fn config(providers: Vec<ProviderConfig>, poll: Option<u64>) -> Config {
    Config::load(
        None,
        None,
        "agent".to_string(),
        Some(ConfigFile {
            context_limit: Some(5000),
            usage_poll_seconds: poll,
            providers: Some(providers),
        }),
    )
}

fn request() -> HttpJsonConfig {
    HttpJsonConfig {
        name: "api".to_string(),
        url: "https://quota.example/api".to_string(),
        method: "POST".to_string(),
        headers: vec![
            ("Authorization".to_string(), "Bearer t".to_string()),
            ("X-Team".to_string(), "a b".to_string()),
        ],
        body: Some("{\"q\":1}".to_string()),
        used_pointer: "/data/used".to_string(),
        limit_pointer: "/data/limit".to_string(),
    }
}

#[test]
fn local_entries_use_the_callers_estimate() {
    let manager = UsageManager::new(&config(
        vec![
            ProviderConfig::Local { name: None, limit_tokens: None },
            ProviderConfig::Local { name: Some("mine".to_string()), limit_tokens: Some(77) },
        ],
        None,
    ));
    let entries = manager.entries(123);
    assert_eq!(entries.len(), 2);
    assert_eq!(entries[0].name, "local-estimate");
    assert_eq!(entries[0].used, Some(123));
    assert_eq!(entries[0].limit, Some(5000));
    assert_eq!(entries[0].status, None);
    assert_eq!(entries[1].name, "mine");
    assert_eq!(entries[1].used, Some(123));
    assert_eq!(entries[1].limit, Some(77));
}

#[test]
fn manual_entries_show_fixed_figures() {
    let manager = UsageManager::new(&config(
        vec![ProviderConfig::Manual { name: "plan".to_string(), limit_tokens: 900, used_tokens: 40 }],
        None,
    ));
    let entries = manager.entries(1);
    assert_eq!(entries.len(), 1);
    assert_eq!(entries[0].name, "plan");
    assert_eq!(entries[0].used, Some(40));
    assert_eq!(entries[0].limit, Some(900));
    assert_eq!(entries[0].status, None);
}

#[test]
fn a_polled_provider_is_loading_before_its_first_poll() {
    let manager = UsageManager::new(&config(vec![http("api")], None));
    let entries = manager.entries(0);
    assert_eq!(entries[0].name, "api");
    assert_eq!(entries[0].used, None);
    assert_eq!(entries[0].limit, None);
    assert_eq!(entries[0].status.as_deref(), Some("loading"));
}

#[test]
fn a_successful_poll_replaces_the_entry_and_clears_the_error() {
    let mut manager = UsageManager::new(&config(vec![http("api")], None));
    manager.apply_poll(0, Err("could not resolve host".to_string()));
    assert_eq!(manager.entries(0)[0].status.as_deref(), Some("could not resolve host"));
    manager.apply_poll(0, Ok(b"{\"data\":{\"used\":123,\"limit\":\"456\"}}".to_vec()));
    let entries = manager.entries(0);
    assert_eq!(entries[0].name, "api");
    assert_eq!(entries[0].used, Some(123));
    assert_eq!(entries[0].limit, Some(456));
    assert_eq!(entries[0].status, None);
}

#[test]
fn a_failed_poll_keeps_the_last_successful_entry() {
    let mut manager = UsageManager::new(&config(vec![http("api")], None));
    manager.apply_poll(0, Ok(b"{\"data\":{\"used\":1,\"limit\":2}}".to_vec()));
    manager.apply_poll(0, Err("timeout".to_string()));
    manager.apply_poll(0, Ok(b"not json".to_vec()));
    manager.apply_poll(0, Ok(b"{\"data\":{\"used\":1}}".to_vec()));
    let entries = manager.entries(0);
    assert_eq!(entries[0].used, Some(1));
    assert_eq!(entries[0].limit, Some(2));
    assert_eq!(entries[0].status, None);
}

#[test]
fn a_poll_of_another_kind_of_provider_changes_nothing() {
    let mut manager = UsageManager::new(&config(
        vec![ProviderConfig::Manual { name: "plan".to_string(), limit_tokens: 9, used_tokens: 4 }],
        None,
    ));
    manager.apply_poll(0, Ok(b"{\"data\":{\"used\":1,\"limit\":2}}".to_vec()));
    manager.apply_poll(5, Err("x".to_string()));
    let entries = manager.entries(0);
    assert_eq!(entries.len(), 1);
    assert_eq!(entries[0].used, Some(4));
    assert_eq!(entries[0].limit, Some(9));
}

#[test]
fn every_entry_has_figures_or_a_status() {
    let mut manager = UsageManager::new(&config(
        vec![
            ProviderConfig::Local { name: None, limit_tokens: None },
            http("a"),
            http("b"),
            ProviderConfig::Manual { name: "m".to_string(), limit_tokens: 1, used_tokens: 1 },
        ],
        None,
    ));
    manager.apply_poll(1, Ok(b"{\"data\":{\"used\":5,\"limit\":6}}".to_vec()));
    manager.apply_poll(2, Ok(b"[]".to_vec()));
    for entry in manager.entries(9) {
        assert!((entry.used.is_some() && entry.limit.is_some()) || entry.status.is_some());
    }
}

#[test]
fn polls_are_due_for_polled_providers_only() {
    let manager = UsageManager::new(&config(
        vec![
            ProviderConfig::Local { name: None, limit_tokens: None },
            http("a"),
            ProviderConfig::Manual { name: "m".to_string(), limit_tokens: 1, used_tokens: 1 },
            http("b"),
        ],
        None,
    ));
    let targets = manager.http_targets();
    assert_eq!(targets.len(), 2);
    assert_eq!(targets[0].index, 1);
    assert_eq!(targets[1].index, 3);
    assert_eq!(targets[0].args, vec!["-sS", "-f", "-X", "GET", "https://quota.example/api"]);
}

#[test]
fn the_poll_interval_is_floored() {
    let poll = |seconds| UsageManager::new(&config(Vec::new(), seconds)).poll_interval();
    assert_eq!(poll(None), 30);
    assert_eq!(poll(Some(60)), 60);
    assert_eq!(poll(Some(5)), 5);
    assert_eq!(poll(Some(4)), 5);
    assert_eq!(poll(Some(0)), 5);
}

#[test]
fn curl_args_carry_method_url_headers_and_body() {
    assert_eq!(
        curl_args(&request()),
        vec![
            "-sS",
            "-f",
            "-X",
            "POST",
            "https://quota.example/api",
            "-H",
            "Authorization: Bearer t",
            "-H",
            "X-Team: a b",
            "-H",
            "Content-Type: application/json",
            "-d",
            "{\"q\":1}"
        ]
    );
}

#[test]
fn usage_from_response_reads_both_figures() {
    let entry =
        usage_from_response(&request(), b"{\"data\":{\"used\":123,\"limit\":\"456\"}}").unwrap();
    assert_eq!(entry.name, "api");
    assert_eq!(entry.used, Some(123));
    assert_eq!(entry.limit, Some(456));
    assert_eq!(entry.status, None);
}

#[test]
fn usage_from_response_reports_the_first_failure() {
    let missing_both = usage_from_response(&request(), b"{}").unwrap_err();
    assert_eq!(missing_both, "missing /data/used");
    let missing_limit = usage_from_response(&request(), b"{\"data\":{\"used\":1}}").unwrap_err();
    assert_eq!(missing_limit, "missing /data/limit");
    let negative =
        usage_from_response(&request(), b"{\"data\":{\"used\":-1,\"limit\":2}}").unwrap_err();
    assert_eq!(negative, "not u64");
    let fraction =
        usage_from_response(&request(), b"{\"data\":{\"used\":1,\"limit\":2.5}}").unwrap_err();
    assert_eq!(fraction, "not u64");
    let shape =
        usage_from_response(&request(), b"{\"data\":{\"used\":[1],\"limit\":2}}").unwrap_err();
    assert_eq!(shape, "not u64");
}

#[test]
fn usage_from_response_reports_bad_json() {
    let error = usage_from_response(&request(), b"{\"data\":").unwrap_err();
    let expected = serde_json::from_slice::<serde_json::Value>(b"{\"data\":").unwrap_err();
    assert_eq!(error, expected.to_string());
    assert!(!error.is_empty());
}

#[test]
fn usage_from_figures_needs_both() {
    let entry = usage_from_figures("n", Ok(1), Ok(2)).unwrap();
    assert_eq!((entry.name.as_str(), entry.used, entry.limit), ("n", Some(1), Some(2)));
    assert_eq!(
        usage_from_figures("n", Err("a".to_string()), Err("b".to_string())).unwrap_err(),
        "a"
    );
    assert_eq!(usage_from_figures("n", Ok(1), Err("b".to_string())).unwrap_err(), "b");
}

#[test]
fn a_failed_transfer_reports_its_error_stream() {
    assert_eq!(fetched_body(true, b"body".to_vec(), "ignored"), Ok(b"body".to_vec()));
    assert_eq!(
        fetched_body(false, b"body".to_vec(), "curl: (22) error 500\n"),
        Err("curl: (22) error 500".to_string())
    );
}

#[test]
fn a_poll_fails_with_the_transfer_or_reads_the_body() {
    assert_eq!(
        fetch_http_usage(&request(), Err("curl: (6) no host".to_string())).unwrap_err(),
        "curl: (6) no host"
    );
    let entry =
        fetch_http_usage(&request(), Ok(b"{\"data\":{\"used\":\"7\",\"limit\":8}}".to_vec()))
            .unwrap();
    assert_eq!((entry.used, entry.limit), (Some(7), Some(8)));
    assert_eq!(
        fetch_http_usage(&request(), Ok(b"{\"data\":{\"used\":true,\"limit\":8}}".to_vec()))
            .unwrap_err(),
        "not u64"
    );
}
