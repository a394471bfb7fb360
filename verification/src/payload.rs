//! Construction of the notification payload: a fixed JSON shape over the
//! watcher name, the event type, the Deployment snapshot and a timestamp.
//! The rendered text is pinned exactly by `spec_payload`.

use crate::event::{ChangeKind, DeploymentCondition, DeploymentSnapshot};
use crate::json::{
    append_i32, append_json_string, append_str, dec_int, json_string,
};
use crate::text::push_char;
use vstd::prelude::*;

verus! {

/// The wire label of an event kind.
pub open spec fn label_of(kind: ChangeKind) -> Seq<char> {
    match kind {
        ChangeKind::Added => "ADDED"@,
        ChangeKind::Modified => "MODIFIED"@,
        ChangeKind::Deleted => "DELETED"@,
    }
}

/// An optional string value: `null` when absent.
pub open spec fn json_opt_string(o: Option<String>) -> Seq<char> {
    match o {
        Option::None => "null"@,
        Option::Some(s) => json_string(s@),
    }
}

/// An optional number: `null` when absent.
pub open spec fn json_opt_i32(o: Option<i32>) -> Seq<char> {
    match o {
        Option::None => "null"@,
        Option::Some(n) => dec_int(n as int),
    }
}

/// One `"key":"value"` member of a labels or annotations object.
pub open spec fn pair_entry(p: (String, String)) -> Seq<char> {
    json_string(p.0@) + seq![':'] + json_string(p.1@)
}

/// The comma-separated members of a labels or annotations object.
pub open spec fn pairs_items(s: Seq<(String, String)>) -> Seq<char>
    decreases s.len(),
{
    if s.len() == 0 {
        Seq::<char>::empty()
    } else if s.len() == 1 {
        pair_entry(s[0])
    } else {
        pairs_items(s.drop_last()) + seq![','] + pair_entry(s.last())
    }
}

/// A labels or annotations object.
pub open spec fn pairs_obj(s: Seq<(String, String)>) -> Seq<char> {
    seq!['{'] + pairs_items(s) + seq!['}']
}

/// Optional labels or annotations: `null` when absent.
pub open spec fn json_opt_pairs(o: Option<Vec<(String, String)>>) -> Seq<char> {
    match o {
        Option::None => "null"@,
        Option::Some(v) => pairs_obj(v@),
    }
}

/// An optional condition member with a trailing comma, or nothing.
pub open spec fn opt_str_field(prefix: Seq<char>, o: Option<String>) -> Seq<char> {
    match o {
        Option::None => Seq::<char>::empty(),
        Option::Some(s) => prefix + json_string(s@) + seq![','],
    }
}

/// One condition object: the optional fields only when present, then the
/// required `status` and `type`.
pub open spec fn condition_json(c: DeploymentCondition) -> Seq<char> {
    seq!['{'] + opt_str_field("\"lastTransitionTime\":"@, c.last_transition_time) + opt_str_field(
        "\"lastUpdateTime\":"@,
        c.last_update_time,
    ) + opt_str_field("\"message\":"@, c.message) + opt_str_field("\"reason\":"@, c.reason)
        + "\"status\":"@ + json_string(c.status@) + ",\"type\":"@ + json_string(c.type_@) + seq![
        '}',
    ]
}

/// The comma-separated items of the conditions array.
pub open spec fn conditions_items(s: Seq<DeploymentCondition>) -> Seq<char>
    decreases s.len(),
{
    if s.len() == 0 {
        Seq::<char>::empty()
    } else if s.len() == 1 {
        condition_json(s[0])
    } else {
        conditions_items(s.drop_last()) + seq![','] + condition_json(s.last())
    }
}

/// The conditions array.
pub open spec fn conditions_arr(s: Seq<DeploymentCondition>) -> Seq<char> {
    seq!['['] + conditions_items(s) + seq![']']
}

/// Optional conditions: `null` when absent.
pub open spec fn json_opt_conditions(o: Option<Vec<DeploymentCondition>>) -> Seq<char> {
    match o {
        Option::None => "null"@,
        Option::Some(v) => conditions_arr(v@),
    }
}

/// The `deployment` object of the payload.
pub open spec fn deployment_json(snap: &DeploymentSnapshot) -> Seq<char> {
    "{\"name\":"@ + json_opt_string(snap.name) + ",\"namespace\":"@ + json_opt_string(
        snap.namespace,
    ) + ",\"labels\":"@ + json_opt_pairs(snap.labels) + ",\"annotations\":"@ + json_opt_pairs(
        snap.annotations,
    ) + ",\"replicas\":"@ + json_opt_i32(snap.replicas) + ",\"ready_replicas\":"@ + json_opt_i32(
        snap.ready_replicas,
    ) + ",\"available_replicas\":"@ + json_opt_i32(snap.available_replicas) + ",\"conditions\":"@
        + json_opt_conditions(snap.conditions) + seq!['}']
}

/// The whole notification payload for one event.
pub open spec fn spec_payload(
    watcher_name: Seq<char>,
    kind: ChangeKind,
    snap: &DeploymentSnapshot,
    ts: Seq<char>,
) -> Seq<char> {
    "{\"watcher_name\":"@ + json_string(watcher_name) + ",\"event_type\":"@ + json_string(
        label_of(kind),
    ) + ",\"deployment\":"@ + deployment_json(snap) + ",\"timestamp\":"@ + json_string(ts) + seq![
        '}',
    ]
}

/// The wire label of an event kind.
pub fn event_type_label(kind: ChangeKind) -> (r: &'static str)
    ensures
        r@ == label_of(kind),
{
    match kind {
        ChangeKind::Added => "ADDED",
        ChangeKind::Modified => "MODIFIED",
        ChangeKind::Deleted => "DELETED",
    }
}

fn append_opt_string(out: &mut String, o: &Option<String>)
    ensures
        final(out)@ == old(out)@ + json_opt_string(*o),
{
    match o {
        Option::None => {
            append_str(out, "null");
        },
        Option::Some(s) => {
            append_json_string(out, s.as_str());
        },
    }
}

fn append_opt_i32(out: &mut String, o: &Option<i32>)
    ensures
        final(out)@ == old(out)@ + json_opt_i32(*o),
{
    match o {
        Option::None => {
            append_str(out, "null");
        },
        Option::Some(n) => {
            append_i32(out, *n);
        },
    }
}

fn append_pairs(out: &mut String, v: &Vec<(String, String)>)
    ensures
        final(out)@ == old(out)@ + pairs_obj(v@),
{
    push_char(out, '{');
    let mut i: usize = 0;
    while i < v.len()
        invariant
            i <= v@.len(),
            out@ == old(out)@ + seq!['{'] + pairs_items(v@.subrange(0, i as int)),
        decreases v@.len() - i,
    {
        if i > 0 {
            push_char(out, ',');
        }
        let p = &v[i];
        append_json_string(out, p.0.as_str());
        push_char(out, ':');
        append_json_string(out, p.1.as_str());
        proof {
            let pre = v@.subrange(0, i as int);
            let post = v@.subrange(0, i as int + 1);
            assert(post.drop_last() =~= pre);
            assert(post.last() == v@[i as int]);
            assert(post[0] == v@[0]);
            assert(out@ =~= old(out)@ + seq!['{'] + pairs_items(post));
        }
        i += 1;
    }
    proof {
        assert(v@.subrange(0, v@.len() as int) =~= v@);
    }
    push_char(out, '}');
    proof {
        assert(out@ =~= old(out)@ + pairs_obj(v@));
    }
}

fn append_opt_pairs(out: &mut String, o: &Option<Vec<(String, String)>>)
    ensures
        final(out)@ == old(out)@ + json_opt_pairs(*o),
{
    match o {
        Option::None => {
            append_str(out, "null");
        },
        Option::Some(v) => {
            append_pairs(out, v);
        },
    }
}

fn append_opt_field(out: &mut String, prefix: &str, o: &Option<String>)
    ensures
        final(out)@ == old(out)@ + opt_str_field(prefix@, *o),
{
    match o {
        Option::None => {
            proof {
                assert(old(out)@ + opt_str_field(prefix@, *o) =~= old(out)@);
            }
        },
        Option::Some(s) => {
            append_str(out, prefix);
            append_json_string(out, s.as_str());
            push_char(out, ',');
            proof {
                assert(out@ =~= old(out)@ + opt_str_field(prefix@, *o));
            }
        },
    }
}

fn append_condition(out: &mut String, c: &DeploymentCondition)
    ensures
        final(out)@ == old(out)@ + condition_json(*c),
{
    push_char(out, '{');
    append_opt_field(out, "\"lastTransitionTime\":", &c.last_transition_time);
    append_opt_field(out, "\"lastUpdateTime\":", &c.last_update_time);
    append_opt_field(out, "\"message\":", &c.message);
    append_opt_field(out, "\"reason\":", &c.reason);
    append_str(out, "\"status\":");
    append_json_string(out, c.status.as_str());
    append_str(out, ",\"type\":");
    append_json_string(out, c.type_.as_str());
    push_char(out, '}');
    proof {
        assert(out@ =~= old(out)@ + condition_json(*c));
    }
}

fn append_conditions(out: &mut String, v: &Vec<DeploymentCondition>)
    ensures
        final(out)@ == old(out)@ + conditions_arr(v@),
{
    push_char(out, '[');
    let mut i: usize = 0;
    while i < v.len()
        invariant
            i <= v@.len(),
            out@ == old(out)@ + seq!['['] + conditions_items(v@.subrange(0, i as int)),
        decreases v@.len() - i,
    {
        if i > 0 {
            push_char(out, ',');
        }
        append_condition(out, &v[i]);
        proof {
            let pre = v@.subrange(0, i as int);
            let post = v@.subrange(0, i as int + 1);
            assert(post.drop_last() =~= pre);
            assert(post.last() == v@[i as int]);
            assert(post[0] == v@[0]);
            assert(out@ =~= old(out)@ + seq!['['] + conditions_items(post));
        }
        i += 1;
    }
    proof {
        assert(v@.subrange(0, v@.len() as int) =~= v@);
    }
    push_char(out, ']');
    proof {
        assert(out@ =~= old(out)@ + conditions_arr(v@));
    }
}

fn append_opt_conditions(out: &mut String, o: &Option<Vec<DeploymentCondition>>)
    ensures
        final(out)@ == old(out)@ + json_opt_conditions(*o),
{
    match o {
        Option::None => {
            append_str(out, "null");
        },
        Option::Some(v) => {
            append_conditions(out, v);
        },
    }
}

#[verifier::rlimit(50)]
fn append_deployment(out: &mut String, snap: &DeploymentSnapshot)
    ensures
        final(out)@ == old(out)@ + deployment_json(snap),
{
    append_str(out, "{\"name\":");
    append_opt_string(out, &snap.name);
    append_str(out, ",\"namespace\":");
    append_opt_string(out, &snap.namespace);
    append_str(out, ",\"labels\":");
    append_opt_pairs(out, &snap.labels);
    append_str(out, ",\"annotations\":");
    append_opt_pairs(out, &snap.annotations);
    append_str(out, ",\"replicas\":");
    append_opt_i32(out, &snap.replicas);
    append_str(out, ",\"ready_replicas\":");
    append_opt_i32(out, &snap.ready_replicas);
    append_str(out, ",\"available_replicas\":");
    append_opt_i32(out, &snap.available_replicas);
    append_str(out, ",\"conditions\":");
    append_opt_conditions(out, &snap.conditions);
    push_char(out, '}');
    proof {
        assert(out@ =~= old(out)@ + deployment_json(snap));
    }
}

/// Renders the notification payload for one event. The result is a pure
/// function of the four arguments: the same watcher name, kind, snapshot and
/// timestamp always give the same text.
#[verifier::rlimit(50)]
pub fn render_payload(
    watcher_name: &str,
    kind: ChangeKind,
    snap: &DeploymentSnapshot,
    timestamp: &str,
) -> (r: String)
    ensures
        r@ == spec_payload(watcher_name@, kind, snap, timestamp@),
{
    let mut out = String::new();
    append_str(&mut out, "{\"watcher_name\":");
    append_json_string(&mut out, watcher_name);
    append_str(&mut out, ",\"event_type\":");
    let label = event_type_label(kind);
    append_json_string(&mut out, label);
    append_str(&mut out, ",\"deployment\":");
    append_deployment(&mut out, snap);
    append_str(&mut out, ",\"timestamp\":");
    append_json_string(&mut out, timestamp);
    push_char(&mut out, '}');
    proof {
        assert(out@ =~= spec_payload(watcher_name@, kind, snap, timestamp@));
    }
    out
}

/// Relies on std's `SystemTime::now` and chrono's `DateTime::from_timestamp`
/// and `DateTime::to_rfc3339` for the current moment as an RFC 3339 text.
/// A clock before the Unix epoch or past chrono's range yields the epoch
/// text instead of a panic. The result depends on the clock, so nothing is
/// promised of it.
#[verifier::external_body]
fn now_rfc3339() -> String {
    match std::time::SystemTime::now().duration_since(std::time::UNIX_EPOCH) {
        Ok(d) => match chrono::DateTime::from_timestamp(d.as_secs() as i64, d.subsec_nanos()) {
            Some(t) => t.to_rfc3339(),
            None => "1970-01-01T00:00:00+00:00".to_string(),
        },
        Err(_) => "1970-01-01T00:00:00+00:00".to_string(),
    }
}

/// Renders the notification payload for one event, stamped with the current
/// time: for some timestamp text, the result is exactly the rendering of the
/// arguments with that timestamp.
pub fn render_payload_now(watcher_name: &str, kind: ChangeKind, snap: &DeploymentSnapshot) -> (r:
    String)
    ensures
        exists|ts: Seq<char>| r@ == spec_payload(watcher_name@, kind, snap, ts),
{
    let ts = now_rfc3339();
    let r = render_payload(watcher_name, kind, snap, ts.as_str());
    proof {
        assert(r@ == spec_payload(watcher_name@, kind, snap, ts@));
    }
    r
}

} // verus!
