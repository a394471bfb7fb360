//! The declarative configuration and its resolution: every webhook's
//! auth-token reference is replaced by the stored secret value, and one
//! missing reference fails the whole resolution.

use crate::secrets::SecretStore;
use vstd::prelude::*;
use vstd::string::StringExecFns;

verus! {

/// A webhook destination as configured: the token is a reference into the
/// secret store, not a value.
pub struct WebhookConfig {
    pub url: String,
    pub auth_token_key: String,
}

/// One configured watcher: a named binding of a namespaced Deployment to a
/// list of webhook destinations.
pub struct WatcherConfig {
    pub name: String,
    pub deployment_name: String,
    pub namespace: String,
    pub webhooks: Vec<WebhookConfig>,
}

/// The whole configuration document.
pub struct Config {
    pub watchers: Vec<WatcherConfig>,
}

/// A webhook destination with its token looked up.
pub struct ResolvedWebhook {
    pub url: String,
    pub auth_token: String,
}

/// A watcher whose every webhook carries its actual token.
pub struct ResolvedWatcher {
    pub name: String,
    pub deployment_name: String,
    pub namespace: String,
    pub webhooks: Vec<ResolvedWebhook>,
}

/// A fatal configuration fault: a webhook names a secret key the store does
/// not hold.
#[derive(Debug)]
pub enum ConfigError {
    MissingSecret(String),
}

impl ConfigError {
    /// The text the process reports for this error.
    pub fn message(&self) -> (r: String)
        ensures
            (match self {
                ConfigError::MissingSecret(k) => r@ == "Auth token '"@ + k@
                    + "' not found in secrets"@,
            }),
    {
        match self {
            ConfigError::MissingSecret(k) => {
                let mut s = String::new();
                s.append("Auth token '");
                s.append(k.as_str());
                s.append("' not found in secrets");
                proof {
                    assert(s@ =~= "Auth token '"@ + k@ + "' not found in secrets"@);
                }
                s
            },
        }
    }
}

/// Every auth-token reference of every webhook of every watcher is present
/// in the store.
pub open spec fn all_keys_resolvable(config: &Config, secrets: &SecretStore) -> bool {
    forall|i: int, j: int|
        0 <= i < config.watchers@.len() && 0 <= j < config.watchers@[i].webhooks@.len()
            ==> secrets.spec_contains(
            (#[trigger] config.watchers@[i].webhooks@[j]).auth_token_key@,
        )
}

/// `rw` is `w` with every webhook's token reference replaced by the stored
/// value, everything else kept.
pub open spec fn watcher_resolved(
    rw: ResolvedWatcher,
    w: WatcherConfig,
    secrets: &SecretStore,
) -> bool {
    &&& rw.name@ == w.name@
    &&& rw.deployment_name@ == w.deployment_name@
    &&& rw.namespace@ == w.namespace@
    &&& rw.webhooks@.len() == w.webhooks@.len()
    &&& forall|j: int|
        0 <= j < w.webhooks@.len() ==> {
            &&& (#[trigger] rw.webhooks@[j]).url@ == w.webhooks@[j].url@
            &&& rw.webhooks@[j].auth_token@ == secrets.spec_value(
                w.webhooks@[j].auth_token_key@,
            )
        }
}

/// The resolved list matches the configured list watcher by watcher.
pub open spec fn watchers_resolved(
    rws: Seq<ResolvedWatcher>,
    ws: Seq<WatcherConfig>,
    secrets: &SecretStore,
) -> bool {
    &&& rws.len() == ws.len()
    &&& forall|i: int| 0 <= i < ws.len() ==> watcher_resolved(#[trigger] rws[i], ws[i], secrets)
}

/// The reference at watcher `i`, webhook `j` is absent from the store, and
/// every reference before it (in watcher order, then webhook order)
/// resolves.
pub open spec fn first_missing_at(config: &Config, secrets: &SecretStore, i: int, j: int) -> bool {
    &&& 0 <= i < config.watchers@.len()
    &&& 0 <= j < config.watchers@[i].webhooks@.len()
    &&& !secrets.spec_contains(config.watchers@[i].webhooks@[j].auth_token_key@)
    &&& forall|i2: int, j2: int|
        0 <= i2 < config.watchers@.len() && 0 <= j2 < config.watchers@[i2].webhooks@.len() && (i2
            < i || (i2 == i && j2 < j)) ==> secrets.spec_contains(
            (#[trigger] config.watchers@[i2].webhooks@[j2]).auth_token_key@,
        )
}

/// Resolves the whole watcher list against the secret store. Succeeds if
/// and only if every referenced key exists; otherwise the error names the
/// first missing key and nothing is resolved.
pub fn resolve_watchers(config: &Config, secrets: &SecretStore) -> (r: Result<
    Vec<ResolvedWatcher>,
    ConfigError,
>)
    requires
        secrets.wf(),
    ensures
        (match r {
            Result::Ok(rws) => all_keys_resolvable(config, secrets) && watchers_resolved(
                rws@,
                config.watchers@,
                secrets,
            ),
            Result::Err(e) => !all_keys_resolvable(config, secrets) && (match e {
                ConfigError::MissingSecret(k) => exists|i: int, j: int|
                    #[trigger] first_missing_at(config, secrets, i, j) && k@
                        == config.watchers@[i].webhooks@[j].auth_token_key@,
            }),
        }),
{
    let mut out: Vec<ResolvedWatcher> = Vec::new();
    let mut i: usize = 0;
    while i < config.watchers.len()
        invariant
            secrets.wf(),
            i <= config.watchers@.len(),
            out@.len() == i,
            forall|a: int|
                0 <= a < i ==> watcher_resolved(#[trigger] out@[a], config.watchers@[a], secrets),
            forall|a: int, b: int|
                0 <= a < i && 0 <= b < config.watchers@[a].webhooks@.len()
                    ==> secrets.spec_contains(
                    (#[trigger] config.watchers@[a].webhooks@[b]).auth_token_key@,
                ),
        decreases config.watchers@.len() - i,
    {
        let w = &config.watchers[i];
        let mut hooks: Vec<ResolvedWebhook> = Vec::new();
        let mut j: usize = 0;
        while j < w.webhooks.len()
            invariant
                secrets.wf(),
                j <= w.webhooks@.len(),
                hooks@.len() == j,
                i < config.watchers@.len(),
                w == &config.watchers@[i as int],
                forall|a: int, b: int|
                    0 <= a < i && 0 <= b < config.watchers@[a].webhooks@.len()
                        ==> secrets.spec_contains(
                        (#[trigger] config.watchers@[a].webhooks@[b]).auth_token_key@,
                    ),
                forall|b: int|
                    0 <= b < j ==> {
                        &&& (#[trigger] hooks@[b]).url@ == w.webhooks@[b].url@
                        &&& hooks@[b].auth_token@ == secrets.spec_value(
                            w.webhooks@[b].auth_token_key@,
                        )
                    },
                forall|b: int|
                    0 <= b < j ==> secrets.spec_contains(
                        (#[trigger] w.webhooks@[b]).auth_token_key@,
                    ),
            decreases w.webhooks@.len() - j,
        {
            let hook = &w.webhooks[j];
            match secrets.get(hook.auth_token_key.as_str()) {
                Option::Some(tok) => {
                    hooks.push(ResolvedWebhook { url: hook.url.clone(), auth_token: tok.clone() });
                },
                Option::None => {
                    proof {
                        let ii = i as int;
                        let jj = j as int;
                        assert(first_missing_at(config, secrets, ii, jj));
                        assert(!all_keys_resolvable(config, secrets)) by {
                            if all_keys_resolvable(config, secrets) {
                                assert(secrets.spec_contains(
                                    config.watchers@[ii].webhooks@[jj].auth_token_key@,
                                ));
                            }
                        }
                    }
                    return Err(ConfigError::MissingSecret(hook.auth_token_key.clone()));
                },
            }
            j += 1;
        }
        out.push(
            ResolvedWatcher {
                name: w.name.clone(),
                deployment_name: w.deployment_name.clone(),
                namespace: w.namespace.clone(),
                webhooks: hooks,
            },
        );
        i += 1;
    }
    Ok(out)
}

} // verus!
