use k8_eagle::event::{ChangeKind, DeploymentCondition, DeploymentSnapshot};
use k8_eagle::payload::{event_type_label, render_payload, render_payload_now};

fn s(v: &str) -> String {
    v.to_string()
}

fn empty_snapshot() -> DeploymentSnapshot {
    DeploymentSnapshot {
        name: None,
        namespace: None,
        labels: None,
        annotations: None,
        replicas: None,
        ready_replicas: None,
        available_replicas: None,
        conditions: None,
    }
}

#[test]
fn labels_of_the_three_kinds() {
    assert_eq!(event_type_label(ChangeKind::Added), "ADDED");
    assert_eq!(event_type_label(ChangeKind::Modified), "MODIFIED");
    assert_eq!(event_type_label(ChangeKind::Deleted), "DELETED");
}

#[test]
fn payload_with_every_field_present() {
    let snap = DeploymentSnapshot {
        name: Some(s("api")),
        namespace: Some(s("prod")),
        labels: Some(vec![(s("app"), s("api")), (s("tier"), s("web"))]),
        annotations: Some(vec![(s("team"), s("core"))]),
        replicas: Some(3),
        ready_replicas: Some(2),
        available_replicas: Some(2),
        conditions: Some(vec![DeploymentCondition {
            last_transition_time: Some(s("2024-01-01T00:00:00Z")),
            last_update_time: None,
            message: Some(s("ok")),
            reason: None,
            status: s("True"),
            type_: s("Available"),
        }]),
    };
    let got = render_payload("api-deploy", ChangeKind::Modified, &snap, "2024-05-06T07:08:09Z");
    let want = "{\"watcher_name\":\"api-deploy\",\"event_type\":\"MODIFIED\",\"deployment\":{\"name\":\"api\",\"namespace\":\"prod\",\"labels\":{\"app\":\"api\",\"tier\":\"web\"},\"annotations\":{\"team\":\"core\"},\"replicas\":3,\"ready_replicas\":2,\"available_replicas\":2,\"conditions\":[{\"lastTransitionTime\":\"2024-01-01T00:00:00Z\",\"message\":\"ok\",\"status\":\"True\",\"type\":\"Available\"}]},\"timestamp\":\"2024-05-06T07:08:09Z\"}";
    assert_eq!(got, want);
}

#[test]
fn payload_with_nothing_present() {
    let got = render_payload("w", ChangeKind::Added, &empty_snapshot(), "t");
    let want = "{\"watcher_name\":\"w\",\"event_type\":\"ADDED\",\"deployment\":{\"name\":null,\"namespace\":null,\"labels\":null,\"annotations\":null,\"replicas\":null,\"ready_replicas\":null,\"available_replicas\":null,\"conditions\":null},\"timestamp\":\"t\"}";
    assert_eq!(got, want);
}

#[test]
fn payload_escapes_strings() {
    let got = render_payload("a\"b\\c\nd\u{0001}e\tf", ChangeKind::Added, &empty_snapshot(), "t");
    assert!(got.starts_with("{\"watcher_name\":\"a\\\"b\\\\c\\nd\\u0001e\\tf\","));
}

#[test]
fn payload_escapes_control_characters() {
    let got = render_payload("\u{8}\u{c}\r\u{1f}", ChangeKind::Added, &empty_snapshot(), "t");
    assert!(got.starts_with("{\"watcher_name\":\"\\b\\f\\r\\u001f\","));
}

#[test]
fn payload_renders_negative_and_extreme_numbers() {
    let mut snap = empty_snapshot();
    snap.replicas = Some(-7);
    snap.ready_replicas = Some(i32::MIN);
    snap.available_replicas = Some(i32::MAX);
    let got = render_payload("w", ChangeKind::Deleted, &snap, "t");
    assert!(got.contains("\"replicas\":-7,"));
    assert!(got.contains("\"ready_replicas\":-2147483648,"));
    assert!(got.contains("\"available_replicas\":2147483647,"));
}

#[test]
fn payload_renders_empty_maps_and_arrays() {
    let mut snap = empty_snapshot();
    snap.labels = Some(vec![]);
    snap.conditions = Some(vec![]);
    let got = render_payload("w", ChangeKind::Added, &snap, "t");
    assert!(got.contains("\"labels\":{},"));
    assert!(got.contains("\"conditions\":[]}"));
}

#[test]
fn payload_is_a_pure_function_of_its_inputs() {
    let snap = DeploymentSnapshot {
        name: Some(s("api")),
        namespace: Some(s("prod")),
        labels: None,
        annotations: None,
        replicas: Some(1),
        ready_replicas: Some(1),
        available_replicas: None,
        conditions: None,
    };
    let a = render_payload("w", ChangeKind::Modified, &snap, "2024-05-06T07:08:09Z");
    let b = render_payload("w", ChangeKind::Modified, &snap, "2024-05-06T07:08:09Z");
    assert_eq!(a, b);
}

#[test]
fn stamped_payload_matches_the_fixed_shape_around_its_timestamp() {
    let got = render_payload_now("w", ChangeKind::Added, &empty_snapshot());
    assert!(got.starts_with("{\"watcher_name\":\"w\",\"event_type\":\"ADDED\",\"deployment\":{\"name\":null,\"namespace\":null,\"labels\":null,\"annotations\":null,\"replicas\":null,\"ready_replicas\":null,\"available_replicas\":null,\"conditions\":null},\"timestamp\":\""));
    assert!(got.ends_with("\"}"));
}
