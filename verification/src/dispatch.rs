//! Webhook fan-out planning: for one event, one delivery request per
//! configured destination, all carrying the same payload, each with its own
//! bearer token. The requests are independent; issuing them concurrently and
//! classifying each outcome is the caller's part.

use crate::config::{watchers_resolved, Config, ResolvedWatcher, ResolvedWebhook};
use crate::secrets::SecretStore;
use vstd::prelude::*;
use vstd::string::StringExecFns;

verus! {

/// The value of the `Authorization` header for a token.
pub open spec fn bearer_of(token: Seq<char>) -> Seq<char> {
    "Bearer "@ + token
}

/// One POST to make: destination, authorization header value, and body.
pub struct DeliveryRequest {
    pub url: String,
    pub auth_header: String,
    pub body: String,
}

/// `reqs` carries `body` to every destination of `hooks`, in order: the
/// same count, each with that destination's URL and bearer token, and every
/// body identical.
pub open spec fn requests_for(
    reqs: Seq<DeliveryRequest>,
    hooks: Seq<ResolvedWebhook>,
    body: Seq<char>,
) -> bool {
    &&& reqs.len() == hooks.len()
    &&& forall|i: int|
        0 <= i < reqs.len() ==> {
            &&& (#[trigger] reqs[i]).url@ == hooks[i].url@
            &&& reqs[i].auth_header@ == bearer_of(hooks[i].auth_token@)
            &&& reqs[i].body@ == body
        }
}

/// The `Authorization` header value for a token.
pub fn bearer_header(token: &str) -> (r: String)
    ensures
        r@ == bearer_of(token@),
{
    let mut s = String::new();
    s.append("Bearer ");
    s.append(token);
    proof {
        assert(s@ =~= bearer_of(token@));
    }
    s
}

/// Plans the fan-out of one payload: exactly one request per webhook of the
/// watcher, each attempted regardless of how any other ends.
pub fn plan_deliveries(watcher: &ResolvedWatcher, body: &String) -> (reqs: Vec<DeliveryRequest>)
    ensures
        requests_for(reqs@, watcher.webhooks@, body@),
{
    let mut reqs: Vec<DeliveryRequest> = Vec::new();
    let mut i: usize = 0;
    while i < watcher.webhooks.len()
        invariant
            i <= watcher.webhooks@.len(),
            reqs@.len() == i,
            forall|a: int|
                0 <= a < i ==> {
                    &&& (#[trigger] reqs@[a]).url@ == watcher.webhooks@[a].url@
                    &&& reqs@[a].auth_header@ == bearer_of(watcher.webhooks@[a].auth_token@)
                    &&& reqs@[a].body@ == body@
                },
        decreases watcher.webhooks@.len() - i,
    {
        let hook = &watcher.webhooks[i];
        reqs.push(
            DeliveryRequest {
                url: hook.url.clone(),
                auth_header: bearer_header(hook.auth_token.as_str()),
                body: body.clone(),
            },
        );
        i += 1;
    }
    reqs
}

/// For a configuration that resolved successfully, the fan-out of one event
/// of watcher `i` goes to exactly the configured destinations: one request
/// per configured webhook, in order, each to that webhook's URL, each
/// bearing the token the store holds under that webhook's configured key,
/// and all carrying the same body.
pub proof fn lemma_fanout_uses_configured_secrets(
    config: &Config,
    secrets: &SecretStore,
    rws: Seq<ResolvedWatcher>,
    reqs: Seq<DeliveryRequest>,
    body: Seq<char>,
    i: int,
)
    requires
        watchers_resolved(rws, config.watchers@, secrets),
        0 <= i < config.watchers@.len(),
        requests_for(reqs, rws[i].webhooks@, body),
    ensures
        reqs.len() == config.watchers@[i].webhooks@.len(),
        forall|j: int|
            0 <= j < reqs.len() ==> {
                &&& (#[trigger] reqs[j]).url@ == config.watchers@[i].webhooks@[j].url@
                &&& reqs[j].auth_header@ == bearer_of(
                    secrets.spec_value(config.watchers@[i].webhooks@[j].auth_token_key@),
                )
                &&& reqs[j].body@ == body
            },
{
    assert forall|j: int| 0 <= j < reqs.len() implies {
        &&& (#[trigger] reqs[j]).url@ == config.watchers@[i].webhooks@[j].url@
        &&& reqs[j].auth_header@ == bearer_of(
            secrets.spec_value(config.watchers@[i].webhooks@[j].auth_token_key@),
        )
        &&& reqs[j].body@ == body
    } by {
        assert(rws[i].webhooks@[j].url@ == config.watchers@[i].webhooks@[j].url@);
    }
}

/// Whether an HTTP status code counts as a successful delivery: the 2xx
/// range, as the transport's success test has it.
pub fn is_success_status(code: u16) -> (r: bool)
    ensures
        r == (200 <= code && code < 300),
{
    200 <= code && code < 300
}

} // verus!
