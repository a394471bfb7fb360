//! The watch loop's state machine: one instance per resolved watcher.
//! Each item of the subscription is turned into one action — a fan-out
//! dispatch for a data-bearing change, nothing for a bookmark, a log entry
//! for an in-band stream error, and permanent termination for a failure of
//! the stream itself.

use crate::config::ResolvedWatcher;
use crate::dispatch::{plan_deliveries, requests_for, DeliveryRequest};
use crate::event::WatchItem;
use crate::payload::{render_payload_now, spec_payload};
use vstd::prelude::*;
use vstd::string::StringExecFns;

verus! {

/// What the caller must do with one processed item.
pub enum StepAction {
    /// Deliver these requests, concurrently and independently.
    Dispatch(Vec<DeliveryRequest>),
    /// Nothing: the item carried no data-bearing change.
    Ignore,
    /// Log the in-band stream error and keep consuming.
    RecordError(String),
    /// Log the cause and stop: the subscription is gone for good.
    Terminate(String),
}

/// The per-watcher loop state: the immutable resolved watcher and whether
/// the subscription has failed permanently.
pub struct WatchLoop {
    pub watcher: ResolvedWatcher,
    pub terminated: bool,
}

impl WatchLoop {
    /// A fresh loop in its streaming state.
    pub fn new(watcher: ResolvedWatcher) -> (s: Self)
        ensures
            s.watcher == watcher,
            !s.terminated,
    {
        WatchLoop { watcher, terminated: false }
    }

    /// Processes one item of the subscription. A data-bearing change
    /// becomes a fan-out dispatch of the rendered payload; a bookmark
    /// becomes nothing at all; an in-band error is only recorded; a stream
    /// failure terminates the loop permanently. The watcher itself is never
    /// changed.
    pub fn step(&mut self, item: WatchItem) -> (a: StepAction)
        requires
            !old(self).terminated,
        ensures
            final(self).watcher == old(self).watcher,
            (match item {
                WatchItem::Change(kind, snap) => !final(self).terminated && (a matches
                    StepAction::Dispatch(reqs) && exists|ts: Seq<char>|
                    requests_for(
                        reqs@,
                        old(self).watcher.webhooks@,
                        spec_payload(old(self).watcher.name@, kind, &snap, ts),
                    )),
                WatchItem::Bookmark => !final(self).terminated && (a matches StepAction::Ignore),
                WatchItem::StreamError(m) => !final(self).terminated && (a matches
                    StepAction::RecordError(m2) && m2@ == m@),
                WatchItem::Failure(m) => final(self).terminated && (a matches
                    StepAction::Terminate(m2) && m2@ == m@),
            }),
    {
        match item {
            WatchItem::Change(kind, snap) => {
                let body = render_payload_now(self.watcher.name.as_str(), kind, &snap);
                let reqs = plan_deliveries(&self.watcher, &body);
                proof {
                    let ts = choose|ts: Seq<char>|
                        body@ == spec_payload(self.watcher.name@, kind, &snap, ts);
                    assert(requests_for(
                        reqs@,
                        self.watcher.webhooks@,
                        spec_payload(self.watcher.name@, kind, &snap, ts),
                    ));
                }
                StepAction::Dispatch(reqs)
            },
            WatchItem::Bookmark => StepAction::Ignore,
            WatchItem::StreamError(m) => StepAction::RecordError(m),
            WatchItem::Failure(m) => {
                self.terminated = true;
                StepAction::Terminate(m)
            },
        }
    }
}

/// The field selector that scopes a subscription to the one configured
/// deployment.
pub fn field_selector(deployment_name: &str) -> (r: String)
    ensures
        r@ == "metadata.name="@ + deployment_name@,
{
    let mut s = String::new();
    s.append("metadata.name=");
    s.append(deployment_name);
    proof {
        assert(s@ =~= "metadata.name="@ + deployment_name@);
    }
    s
}

} // verus!
