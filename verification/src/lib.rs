//! Watch-to-dispatch pipeline for a Kubernetes deployment change relay:
//! configuration resolution, watch-event handling, notification payload
//! construction, and webhook fan-out planning.

pub mod config;
pub mod dispatch;
pub mod event;
pub mod json;
pub mod payload;
pub mod secrets;
pub mod text;
pub mod watch;
