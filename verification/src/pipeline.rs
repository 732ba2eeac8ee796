//! One run of the notifier: compose the source filter, the dwell policy and
//! the renderer into the list of payloads to emit, pick the active sinks,
//! and judge the run's outcome under the continue-and-report failure policy.

use vstd::prelude::*;

use crate::model::{
    ConfigView, DwellPolicy, MergeRequestSummary, MrView, NotificationPayload, PayloadView,
    RunConfig,
};
use crate::policy::{qualifies, spec_qualifies};
use crate::render::{render, spec_render};
use crate::source::{lemma_source_filter_push, source_keeps, spec_source_filter, spec_source_keeps};

verus! {

/// The subsequence of (already source-filtered) merge requests that the
/// dwell policy lets through, in order.
pub open spec fn spec_qualifying(s: Seq<MrView>, min_dwell_secs: Option<i64>, now: i64) -> Seq<
    MrView,
>
    decreases s.len(),
{
    if s.len() == 0 {
        Seq::empty()
    } else if spec_qualifies(s.last().updated_at, min_dwell_secs, now) {
        spec_qualifying(s.drop_last(), min_dwell_secs, now).push(s.last())
    } else {
        spec_qualifying(s.drop_last(), min_dwell_secs, now)
    }
}

pub proof fn lemma_qualifying_push(s: Seq<MrView>, m: MrView, min_dwell_secs: Option<i64>, now: i64)
    ensures
        spec_qualifying(s.push(m), min_dwell_secs, now) == if spec_qualifies(
            m.updated_at,
            min_dwell_secs,
            now,
        ) {
            spec_qualifying(s, min_dwell_secs, now).push(m)
        } else {
            spec_qualifying(s, min_dwell_secs, now)
        },
{
    assert(s.push(m).drop_last() =~= s);
    assert(s.push(m).last() == m);
}

/// Renders every merge request of a sequence, in order.
pub open spec fn spec_render_all(s: Seq<MrView>, target: Option<Seq<char>>) -> Seq<PayloadView>
    decreases s.len(),
{
    if s.len() == 0 {
        Seq::empty()
    } else {
        spec_render_all(s.drop_last(), target).push(spec_render(s.last(), target))
    }
}

pub proof fn lemma_render_all_push(s: Seq<MrView>, m: MrView, target: Option<Seq<char>>)
    ensures
        spec_render_all(s.push(m), target) == spec_render_all(s, target).push(
            spec_render(m, target),
        ),
{
    assert(s.push(m).drop_last() =~= s);
    assert(s.push(m).last() == m);
}

/// The payloads of one run over the raw fetched list: source filtering
/// (state and target branch), then the dwell policy, then the renderer.
pub open spec fn spec_plan(raw: Seq<MrView>, cfg: ConfigView, now: i64) -> Seq<PayloadView> {
    spec_render_all(
        spec_qualifying(
            spec_source_filter(raw, cfg.target_branch),
            cfg.min_dwell_secs,
            now,
        ),
        cfg.target_branch,
    )
}

pub proof fn lemma_plan_push(raw: Seq<MrView>, m: MrView, cfg: ConfigView, now: i64)
    ensures
        spec_plan(raw.push(m), cfg, now) == if spec_source_keeps(m, cfg.target_branch)
            && spec_qualifies(m.updated_at, cfg.min_dwell_secs, now) {
            spec_plan(raw, cfg, now).push(spec_render(m, cfg.target_branch))
        } else {
            spec_plan(raw, cfg, now)
        },
{
    lemma_source_filter_push(raw, m, cfg.target_branch);
    if spec_source_keeps(m, cfg.target_branch) {
        lemma_qualifying_push(
            spec_source_filter(raw, cfg.target_branch),
            m,
            cfg.min_dwell_secs,
            now,
        );
        if spec_qualifies(m.updated_at, cfg.min_dwell_secs, now) {
            lemma_render_all_push(
                spec_qualifying(
                    spec_source_filter(raw, cfg.target_branch),
                    cfg.min_dwell_secs,
                    now,
                ),
                m,
                cfg.target_branch,
            );
        }
    }
}

/// One pass over the fetched merge requests: returns, in the host's order,
/// the rendered payload of every open, branch-matching merge request that
/// has dwelt long enough.
pub fn plan_notifications(items: &Vec<MergeRequestSummary>, cfg: &RunConfig, now: i64) -> (r: Vec<
    NotificationPayload,
>)
    ensures
        r.deep_view() == spec_plan(items.deep_view(), cfg@, now),
{
    let policy = DwellPolicy { min_dwell_secs: cfg.min_dwell_secs };
    let mut out: Vec<NotificationPayload> = Vec::new();
    let n: usize = items.len();
    for i in 0..n
        invariant
            n == items.len(),
            policy.min_dwell_secs == cfg.min_dwell_secs,
            out.deep_view() == spec_plan(items.deep_view().take(i as int), cfg@, now),
    {
        let ghost pre = out.deep_view();
        let keep = source_keeps(&items[i], &cfg.target_branch) && qualifies(
            &items[i],
            &policy,
            now,
        );
        proof {
            assert(items.deep_view().take(i as int).push(items@[i as int].deep_view())
                =~= items.deep_view().take(i + 1));
            lemma_plan_push(items.deep_view().take(i as int), items@[i as int].deep_view(), cfg@, now);
        }
        if keep {
            let p = render(&items[i], &cfg.target_branch);
            out.push(p);
            proof {
                assert(out.deep_view() =~= pre.push(
                    spec_render(items@[i as int].deep_view(), cfg@.target_branch),
                ));
            }
        }
    }
    proof {
        assert(items.deep_view().take(n as int) =~= items.deep_view());
    }
    out
}

/// Idempotence of a run's pure part: two runs over the same fetched data,
/// the same configuration and the same clock produce identical payloads.
pub proof fn lemma_plan_deterministic(
    raw: Seq<MrView>,
    cfg: ConfigView,
    now: i64,
    r1: Seq<PayloadView>,
    r2: Seq<PayloadView>,
)
    requires
        r1 == spec_plan(raw, cfg, now),
        r2 == spec_plan(raw, cfg, now),
    ensures
        r1 == r2,
{
}

/// What is rendered never depends on where it will be delivered: two
/// configurations that agree on the target branch and the dwell threshold
/// plan the same payloads, whatever their webhook settings.
pub proof fn lemma_plan_ignores_webhook(raw: Seq<MrView>, cfg1: ConfigView, cfg2: ConfigView, now: i64)
    requires
        cfg1.target_branch == cfg2.target_branch,
        cfg1.min_dwell_secs == cfg2.min_dwell_secs,
    ensures
        spec_plan(raw, cfg1, now) == spec_plan(raw, cfg2, now),
{
}

/// A destination for rendered notifications. The console is always active;
/// the webhook is active exactly when an endpoint is configured.
pub enum SinkTarget {
    Console,
    Webhook(String),
}

/// Mathematical view of a sink.
#[verifier::ext_equal]
pub enum SinkView {
    Console,
    Webhook(Seq<char>),
}

impl View for SinkTarget {
    type V = SinkView;

    open spec fn view(&self) -> SinkView {
        match self {
            SinkTarget::Console => SinkView::Console,
            SinkTarget::Webhook(u) => SinkView::Webhook(u@),
        }
    }
}

impl DeepView for SinkTarget {
    type V = SinkView;

    open spec fn deep_view(&self) -> SinkView {
        self.view()
    }
}

/// The sinks of a run: the console first, then the webhook when one is
/// configured.
pub open spec fn spec_active_sinks(cfg: ConfigView) -> Seq<SinkView> {
    match cfg.webhook_url {
        None => seq![SinkView::Console],
        Some(u) => seq![SinkView::Console, SinkView::Webhook(u)],
    }
}

pub fn active_sinks(cfg: &RunConfig) -> (s: Vec<SinkTarget>)
    ensures
        s.deep_view() == spec_active_sinks(cfg@),
{
    let mut s: Vec<SinkTarget> = Vec::new();
    s.push(SinkTarget::Console);
    match &cfg.webhook_url {
        None => {},
        Some(u) => {
            s.push(SinkTarget::Webhook(u.clone()));
        },
    }
    proof {
        assert(s.deep_view() =~= spec_active_sinks(cfg@));
    }
    s
}

/// Outcome of one webhook dispatch, as reported back by the delivery layer.
#[derive(Clone, Copy, PartialEq, Eq, Structural, Debug)]
pub enum DispatchOutcome {
    Delivered,
    Failed,
}

pub open spec fn spec_all_delivered(s: Seq<DispatchOutcome>) -> bool {
    forall|i: int| 0 <= i < s.len() ==> s[i] is Delivered
}

/// Judgement of a whole run under the continue-and-report policy: every
/// dispatch was attempted, and the run counts as successful exactly when
/// every one of them was delivered. An empty list — nothing to dispatch —
/// is a successful run.
pub fn run_succeeded(results: &Vec<DispatchOutcome>) -> (r: bool)
    ensures
        r == spec_all_delivered(results@),
{
    let n: usize = results.len();
    for i in 0..n
        invariant
            n == results@.len(),
            forall|j: int| 0 <= j < i ==> results@[j] is Delivered,
    {
        if results[i] == DispatchOutcome::Failed {
            return false;
        }
    }
    true
}

} // verus!
