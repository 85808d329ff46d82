use cc_workbench::config::{child_args, Config, ConfigFile, ProviderConfig};

fn fallback() -> String {
    "agent".to_string()
}

#[test]
fn defaults_without_a_file() {
    let config = Config::load(None, None, fallback(), None);
    assert_eq!(config.claude_cmd, "agent");
    assert_eq!(config.context_limit, 200_000);
    assert_eq!(config.usage_poll_seconds, 30);
    assert_eq!(config.providers.len(), 1);
    match &config.providers[0] {
        ProviderConfig::Local { name, limit_tokens } => {
            assert_eq!(name.as_deref(), Some("local-estimate"));
            assert_eq!(*limit_tokens, Some(200_000));
        }
        other => panic!("unexpected provider {:?}", other),
    }
}

#[test]
fn the_override_wins_over_the_sibling() {
    let both =
        Config::load(Some("/opt/a".to_string()), Some("/opt/b".to_string()), fallback(), None);
    assert_eq!(both.claude_cmd, "/opt/a");
    let sibling = Config::load(None, Some("/opt/b".to_string()), fallback(), None);
    assert_eq!(sibling.claude_cmd, "/opt/b");
}

#[test]
fn the_file_overrides_the_defaults() {
    let file = ConfigFile {
        context_limit: Some(1000),
        usage_poll_seconds: Some(2),
        providers: None,
    };
    let config = Config::load(None, None, fallback(), Some(file));
    assert_eq!(config.context_limit, 1000);
    assert_eq!(config.usage_poll_seconds, 2);
    assert_eq!(config.providers.len(), 1);
    match &config.providers[0] {
        ProviderConfig::Local { limit_tokens, .. } => assert_eq!(*limit_tokens, Some(1000)),
        other => panic!("unexpected provider {:?}", other),
    }
}

#[test]
fn an_empty_provider_list_gets_the_local_provider() {
    let file =
        ConfigFile { context_limit: None, usage_poll_seconds: None, providers: Some(Vec::new()) };
    let config = Config::load(None, None, fallback(), Some(file));
    assert_eq!(config.providers.len(), 1);
    assert!(matches!(config.providers[0], ProviderConfig::Local { .. }));
}

#[test]
fn listed_providers_are_kept_in_order() {
    let file = ConfigFile {
        context_limit: None,
        usage_poll_seconds: None,
        providers: Some(vec![
            ProviderConfig::Manual { name: "m".to_string(), limit_tokens: 10, used_tokens: 3 },
            ProviderConfig::Local { name: None, limit_tokens: None },
        ]),
    };
    let config = Config::load(None, None, fallback(), Some(file));
    assert_eq!(config.providers.len(), 2);
    assert!(matches!(
        &config.providers[0],
        ProviderConfig::Manual { name, limit_tokens: 10, used_tokens: 3 } if name == "m"
    ));
    assert!(matches!(
        &config.providers[1],
        ProviderConfig::Local { name: None, limit_tokens: None }
    ));
}

fn words(list: &[&str]) -> Vec<String> {
    list.iter().map(|w| w.to_string()).collect()
}

#[test]
fn arguments_after_the_separator_are_forwarded() {
    assert_eq!(child_args(words(&["engine", "-v", "--", "--resume", "x"])), vec!["--resume", "x"]);
    assert_eq!(child_args(words(&["engine", "--", "a", "--", "b"])), vec!["a", "--", "b"]);
}

#[test]
fn without_a_separator_nothing_is_forwarded() {
    assert!(child_args(words(&["engine", "-v", "x"])).is_empty());
    assert!(child_args(words(&["engine", "--"])).is_empty());
    assert!(child_args(Vec::new()).is_empty());
}
