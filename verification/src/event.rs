//! The data model of the watch stream: the kind of a change, the Deployment
//! snapshot a notification carries, and the items a subscription yields.

use vstd::prelude::*;

verus! {

/// The kind of a data-bearing change to a watched Deployment.
#[derive(Clone, Copy, PartialEq, Eq, Structural, Debug)]
pub enum ChangeKind {
    Added,
    Modified,
    Deleted,
}

/// One status condition of a Deployment, as the notification reports it.
/// The optional fields are left out of the rendered JSON when absent; the
/// `status` and `type_` fields are always present.
pub struct DeploymentCondition {
    pub last_transition_time: Option<String>,
    pub last_update_time: Option<String>,
    pub message: Option<String>,
    pub reason: Option<String>,
    pub status: String,
    pub type_: String,
}

/// The fields of a Deployment that a notification carries: identity, labels
/// and annotations, the desired and observed replica counts, and the status
/// conditions.
pub struct DeploymentSnapshot {
    pub name: Option<String>,
    pub namespace: Option<String>,
    pub labels: Option<Vec<(String, String)>>,
    pub annotations: Option<Vec<(String, String)>>,
    pub replicas: Option<i32>,
    pub ready_replicas: Option<i32>,
    pub available_replicas: Option<i32>,
    pub conditions: Option<Vec<DeploymentCondition>>,
}

/// One item read from a watch subscription: a data-bearing change, a
/// bookmark checkpoint, an error value embedded in the stream, or a failure
/// of the stream itself.
pub enum WatchItem {
    Change(ChangeKind, DeploymentSnapshot),
    Bookmark,
    StreamError(String),
    Failure(String),
}

} // verus!
