use k8_eagle::config::{resolve_watchers, Config, ResolvedWatcher, ResolvedWebhook, WatcherConfig, WebhookConfig};
use k8_eagle::dispatch::{bearer_header, is_success_status, plan_deliveries};
use k8_eagle::event::{ChangeKind, DeploymentSnapshot, WatchItem};
use k8_eagle::secrets::SecretStore;
use k8_eagle::watch::{field_selector, StepAction, WatchLoop};

fn s(v: &str) -> String {
    v.to_string()
}

fn watcher_with_hooks(hooks: Vec<(&str, &str)>) -> ResolvedWatcher {
    ResolvedWatcher {
        name: s("w"),
        deployment_name: s("d"),
        namespace: s("ns"),
        webhooks: hooks
            .into_iter()
            .map(|(url, tok)| ResolvedWebhook { url: s(url), auth_token: s(tok) })
            .collect(),
    }
}

fn snapshot(replicas: i32, ready: i32) -> DeploymentSnapshot {
    DeploymentSnapshot {
        name: Some(s("api")),
        namespace: Some(s("prod")),
        labels: None,
        annotations: None,
        replicas: Some(replicas),
        ready_replicas: Some(ready),
        available_replicas: None,
        conditions: None,
    }
}

#[test]
fn bearer_header_prefixes_the_token() {
    assert_eq!(bearer_header("abc123"), "Bearer abc123");
}

#[test]
fn field_selector_names_the_deployment() {
    assert_eq!(field_selector("api"), "metadata.name=api");
}

#[test]
fn success_statuses_are_the_2xx_range() {
    assert!(is_success_status(200));
    assert!(is_success_status(204));
    assert!(is_success_status(299));
    assert!(!is_success_status(199));
    assert!(!is_success_status(300));
    assert!(!is_success_status(404));
    assert!(!is_success_status(500));
}

#[test]
fn every_destination_gets_its_own_request() {
    let w = watcher_with_hooks(vec![
        ("https://a.example/h", "ta"),
        ("https://b.example/h", "tb"),
        ("https://c.example/h", "tc"),
    ]);
    let body = s("{}");
    let reqs = plan_deliveries(&w, &body);
    assert_eq!(reqs.len(), 3);
    assert_eq!(reqs[0].url, "https://a.example/h");
    assert_eq!(reqs[1].url, "https://b.example/h");
    assert_eq!(reqs[2].url, "https://c.example/h");
    assert_eq!(reqs[0].auth_header, "Bearer ta");
    assert_eq!(reqs[1].auth_header, "Bearer tb");
    assert_eq!(reqs[2].auth_header, "Bearer tc");
    assert!(reqs.iter().all(|r| r.body == "{}"));
}

#[test]
fn zero_destinations_plan_nothing() {
    let w = watcher_with_hooks(vec![]);
    let reqs = plan_deliveries(&w, &s("{}"));
    assert!(reqs.is_empty());
}

#[test]
fn bookmark_produces_no_delivery() {
    let mut lp = WatchLoop::new(watcher_with_hooks(vec![("https://a.example/h", "t")]));
    match lp.step(WatchItem::Bookmark) {
        StepAction::Ignore => {}
        _ => panic!("a bookmark must be ignored"),
    }
    assert!(!lp.terminated);
}

#[test]
fn in_band_error_keeps_streaming() {
    let mut lp = WatchLoop::new(watcher_with_hooks(vec![("https://a.example/h", "t")]));
    match lp.step(WatchItem::StreamError(s("status 410"))) {
        StepAction::RecordError(m) => assert_eq!(m, "status 410"),
        _ => panic!("an in-band error is only recorded"),
    }
    assert!(!lp.terminated);
    // the loop still consumes afterwards
    match lp.step(WatchItem::Bookmark) {
        StepAction::Ignore => {}
        _ => panic!("the loop must keep consuming"),
    }
}

#[test]
fn stream_failure_terminates_the_loop() {
    let mut lp = WatchLoop::new(watcher_with_hooks(vec![("https://a.example/h", "t")]));
    match lp.step(WatchItem::Failure(s("connection reset"))) {
        StepAction::Terminate(m) => assert_eq!(m, "connection reset"),
        _ => panic!("a stream failure terminates the loop"),
    }
    assert!(lp.terminated);
}

#[test]
fn change_dispatches_to_every_destination() {
    let mut lp = WatchLoop::new(watcher_with_hooks(vec![
        ("https://a.example/h", "ta"),
        ("https://b.example/h", "tb"),
    ]));
    match lp.step(WatchItem::Change(ChangeKind::Added, snapshot(1, 1))) {
        StepAction::Dispatch(reqs) => {
            assert_eq!(reqs.len(), 2);
            assert_eq!(reqs[0].body, reqs[1].body);
            assert!(reqs[0].body.contains("\"event_type\":\"ADDED\""));
        }
        _ => panic!("a change must dispatch"),
    }
    assert!(!lp.terminated);
}

#[test]
fn modified_event_scenario_end_to_end() {
    // watcher "api-deploy" tracks deployment `api` in namespace `prod` with
    // one webhook keyed on secret `api-token`, whose file holds "abc123".
    let store = SecretStore::from_entries(&vec![(s("api-token"), s("abc123\n"))]);
    let config = Config {
        watchers: vec![WatcherConfig {
            name: s("api-deploy"),
            deployment_name: s("api"),
            namespace: s("prod"),
            webhooks: vec![WebhookConfig {
                url: s("https://hooks.example/api"),
                auth_token_key: s("api-token"),
            }],
        }],
    };
    let resolved = resolve_watchers(&config, &store).expect("the key exists");
    assert_eq!(resolved.len(), 1);
    let mut lp = WatchLoop::new(resolved.into_iter().next().unwrap());
    match lp.step(WatchItem::Change(ChangeKind::Modified, snapshot(3, 2))) {
        StepAction::Dispatch(reqs) => {
            assert_eq!(reqs.len(), 1, "exactly one POST");
            assert_eq!(reqs[0].url, "https://hooks.example/api");
            assert_eq!(reqs[0].auth_header, "Bearer abc123");
            assert!(reqs[0].body.contains("\"event_type\":\"MODIFIED\""));
            assert!(reqs[0].body.contains("\"replicas\":3,"));
            assert!(reqs[0].body.contains("\"ready_replicas\":2,"));
            assert!(reqs[0].body.contains("\"watcher_name\":\"api-deploy\""));
        }
        _ => panic!("a modified event must dispatch"),
    }
}
