//! Core of a one-shot merge-request notifier.
//!
//! The library decides, for a list of merge requests fetched from a
//! source-control host, which of them deserve a notification (state and
//! target-branch filtering, minimum-dwell policy), renders the notification
//! payloads, and reports the outcome of a run. All decisions are pure
//! functions of the fetched data, the configuration and the current time;
//! network fetch and delivery live outside the library.

pub mod digits;
pub mod model;
pub mod pipeline;
pub mod policy;
pub mod render;
pub mod source;
