use k8_eagle::config::{resolve_watchers, Config, ConfigError, WatcherConfig, WebhookConfig};
use k8_eagle::secrets::SecretStore;

fn s(v: &str) -> String {
    v.to_string()
}

fn one_watcher(name: &str, deployment: &str, namespace: &str, hooks: Vec<(&str, &str)>) -> WatcherConfig {
    WatcherConfig {
        name: s(name),
        deployment_name: s(deployment),
        namespace: s(namespace),
        webhooks: hooks
            .into_iter()
            .map(|(url, key)| WebhookConfig { url: s(url), auth_token_key: s(key) })
            .collect(),
    }
}

#[test]
fn store_trims_values() {
    let entries = vec![(s("api-token"), s("  abc123\n"))];
    let store = SecretStore::from_entries(&entries);
    assert_eq!(store.len(), 1);
    assert_eq!(store.get("api-token").map(|v| v.as_str()), Some("abc123"));
}

#[test]
fn store_trims_unicode_whitespace() {
    let entries = vec![(s("k"), s("\u{a0}\t v\u{2009}\r\n"))];
    let store = SecretStore::from_entries(&entries);
    assert_eq!(store.get("k").map(|v| v.as_str()), Some("v"));
}

#[test]
fn store_keeps_inner_whitespace() {
    let entries = vec![(s("k"), s(" a b "))];
    let store = SecretStore::from_entries(&entries);
    assert_eq!(store.get("k").map(|v| v.as_str()), Some("a b"));
}

#[test]
fn store_first_entry_wins() {
    let entries = vec![(s("k"), s("first")), (s("k"), s("second"))];
    let store = SecretStore::from_entries(&entries);
    assert_eq!(store.len(), 1);
    assert_eq!(store.get("k").map(|v| v.as_str()), Some("first"));
}

#[test]
fn store_missing_key_is_none() {
    let store = SecretStore::from_entries(&vec![(s("a"), s("1"))]);
    assert!(store.get("b").is_none());
}

#[test]
fn resolve_succeeds_when_every_key_exists() {
    let store = SecretStore::from_entries(&vec![
        (s("tok-a"), s("alpha\n")),
        (s("tok-b"), s("beta")),
    ]);
    let config = Config {
        watchers: vec![
            one_watcher("w1", "d1", "ns1", vec![("https://a.example/h", "tok-a")]),
            one_watcher(
                "w2",
                "d2",
                "ns2",
                vec![("https://b.example/h", "tok-b"), ("https://c.example/h", "tok-a")],
            ),
        ],
    };
    let resolved = resolve_watchers(&config, &store).expect("all keys exist");
    assert_eq!(resolved.len(), 2);
    assert_eq!(resolved[0].name, "w1");
    assert_eq!(resolved[0].deployment_name, "d1");
    assert_eq!(resolved[0].namespace, "ns1");
    assert_eq!(resolved[0].webhooks.len(), 1);
    assert_eq!(resolved[0].webhooks[0].url, "https://a.example/h");
    assert_eq!(resolved[0].webhooks[0].auth_token, "alpha");
    assert_eq!(resolved[1].webhooks.len(), 2);
    assert_eq!(resolved[1].webhooks[0].auth_token, "beta");
    assert_eq!(resolved[1].webhooks[1].auth_token, "alpha");
}

#[test]
fn resolve_fails_on_first_missing_key() {
    let store = SecretStore::from_entries(&vec![(s("tok-a"), s("alpha"))]);
    let config = Config {
        watchers: vec![
            one_watcher("w1", "d1", "ns1", vec![("https://a.example/h", "tok-a")]),
            one_watcher(
                "w2",
                "d2",
                "ns2",
                vec![("https://b.example/h", "tok-missing"), ("https://c.example/h", "tok-gone")],
            ),
        ],
    };
    match resolve_watchers(&config, &store) {
        Err(ConfigError::MissingSecret(k)) => assert_eq!(k, "tok-missing"),
        Ok(_) => panic!("resolution must fail"),
    }
}

#[test]
fn missing_secret_message_names_the_key() {
    let e = ConfigError::MissingSecret(s("api-token"));
    assert_eq!(e.message(), "Auth token 'api-token' not found in secrets");
}

#[test]
fn zero_webhooks_resolve_fine() {
    let store = SecretStore::new();
    let config = Config { watchers: vec![one_watcher("w", "d", "ns", vec![])] };
    let resolved = resolve_watchers(&config, &store).expect("nothing to resolve");
    assert_eq!(resolved.len(), 1);
    assert!(resolved[0].webhooks.is_empty());
}

#[test]
fn empty_store_starts_but_any_reference_is_fatal() {
    // A missing secrets directory yields an empty store; that alone is
    // tolerated: a configuration with no token references still resolves.
    let store = SecretStore::from_entries(&vec![]);
    assert_eq!(store.len(), 0);
    let empty_config = Config { watchers: vec![] };
    assert!(resolve_watchers(&empty_config, &store).is_ok());
    // But any watcher that references a key fails resolution outright.
    let config = Config {
        watchers: vec![one_watcher("w", "d", "ns", vec![("https://a.example/h", "api-token")])],
    };
    match resolve_watchers(&config, &store) {
        Err(ConfigError::MissingSecret(k)) => assert_eq!(k, "api-token"),
        Ok(_) => panic!("resolution must fail with an empty store"),
    }
}
