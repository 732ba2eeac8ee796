//! Data model of the notifier: merge-request summaries, the dwell policy,
//! the run configuration, and rendered notification payloads, each with its
//! mathematical view.

use vstd::prelude::*;

verus! {

/// State of a merge request as reported by the remote host. Only `Opened`
/// merge requests are ever notified about; the other states exist so that a
/// raw host response can be represented faithfully before filtering.
#[derive(Clone, Copy, PartialEq, Eq, Structural, Debug)]
pub enum MrState {
    Opened,
    Merged,
    Closed,
    Locked,
}

/// Minimal projection of a remote merge request: exactly the fields the
/// pipeline reads. Constructed fresh per run from the host response and
/// immutable afterwards.
pub struct MergeRequestSummary {
    /// Numeric identifier, unique within the host.
    pub id: u64,
    /// Display title.
    pub title: String,
    /// Absolute link to the merge request.
    pub web_url: String,
    /// Seconds since the Unix epoch of the last modification; drives the
    /// dwell computation.
    pub updated_at: i64,
    /// Branch the merge request targets.
    pub target_branch: String,
    /// State at fetch time.
    pub state: MrState,
}

/// Mathematical view of a merge-request summary: strings become character
/// sequences, everything else is carried as-is.
#[verifier::ext_equal]
pub struct MrView {
    pub id: u64,
    pub title: Seq<char>,
    pub web_url: Seq<char>,
    pub updated_at: i64,
    pub target_branch: Seq<char>,
    pub state: MrState,
}

impl View for MergeRequestSummary {
    type V = MrView;

    open spec fn view(&self) -> MrView {
        MrView {
            id: self.id,
            title: self.title@,
            web_url: self.web_url@,
            updated_at: self.updated_at,
            target_branch: self.target_branch@,
            state: self.state,
        }
    }
}

impl DeepView for MergeRequestSummary {
    type V = MrView;

    open spec fn deep_view(&self) -> MrView {
        self.view()
    }
}

impl Clone for MergeRequestSummary {
    fn clone(&self) -> (r: Self)
        ensures
            r == *self,
    {
        MergeRequestSummary {
            id: self.id,
            title: self.title.clone(),
            web_url: self.web_url.clone(),
            updated_at: self.updated_at,
            target_branch: self.target_branch.clone(),
            state: self.state,
        }
    }
}

/// Dwell policy: an optional minimum idle time in seconds. When absent,
/// every fetched merge request qualifies for notification.
#[derive(Clone, Copy)]
pub struct DwellPolicy {
    pub min_dwell_secs: Option<i64>,
}

/// Immutable configuration of one run, resolved before the pipeline starts.
pub struct RunConfig {
    /// When present, only merge requests targeting exactly this branch are
    /// considered.
    pub target_branch: Option<String>,
    /// Minimum idle time in seconds before a merge request is notified about.
    pub min_dwell_secs: Option<i64>,
    /// Webhook endpoint; the webhook sink is active iff this is present.
    pub webhook_url: Option<String>,
}

/// Mathematical view of a run configuration.
#[verifier::ext_equal]
pub struct ConfigView {
    pub target_branch: Option<Seq<char>>,
    pub min_dwell_secs: Option<i64>,
    pub webhook_url: Option<Seq<char>>,
}

impl View for RunConfig {
    type V = ConfigView;

    open spec fn view(&self) -> ConfigView {
        ConfigView {
            target_branch: self.target_branch.deep_view(),
            min_dwell_secs: self.min_dwell_secs,
            webhook_url: self.webhook_url.deep_view(),
        }
    }
}

/// Rendered notification for one qualifying merge request: a plain console
/// line, a short summary for structured sinks, and — when the merge request's
/// link is usable — a markdown block with the hyperlink. A missing block is
/// the non-fatal fallback for an unusable link, not an error.
pub struct NotificationPayload {
    /// Human-readable line for the console sink.
    pub text: String,
    /// Summary text for structured sinks.
    pub summary: String,
    /// Markdown block with the hyperlink; `None` when `web_url` cannot be
    /// used to build a link.
    pub block_markdown: Option<String>,
}

/// Mathematical view of a rendered payload.
#[verifier::ext_equal]
pub struct PayloadView {
    pub text: Seq<char>,
    pub summary: Seq<char>,
    pub block_markdown: Option<Seq<char>>,
}

impl View for NotificationPayload {
    type V = PayloadView;

    open spec fn view(&self) -> PayloadView {
        PayloadView {
            text: self.text@,
            summary: self.summary@,
            block_markdown: self.block_markdown.deep_view(),
        }
    }
}

impl DeepView for NotificationPayload {
    type V = PayloadView;

    open spec fn deep_view(&self) -> PayloadView {
        self.view()
    }
}

} // verus!
