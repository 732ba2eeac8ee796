use mr_nag::model::{DwellPolicy, MergeRequestSummary, MrState, RunConfig};
use mr_nag::pipeline::{active_sinks, plan_notifications, run_succeeded, DispatchOutcome, SinkTarget};
use mr_nag::policy::qualifies;
use mr_nag::source::source_filter;

fn mr(id: u64, title: &str, updated_at: i64, target_branch: &str, state: MrState) -> MergeRequestSummary {
    MergeRequestSummary {
        id,
        title: String::from(title),
        web_url: String::from("https://gitlab.example.com/mr/x"),
        updated_at,
        target_branch: String::from(target_branch),
        state,
    }
}

fn cfg(target_branch: Option<&str>, min_dwell_secs: Option<i64>, webhook_url: Option<&str>) -> RunConfig {
    RunConfig {
        target_branch: target_branch.map(String::from),
        min_dwell_secs,
        webhook_url: webhook_url.map(String::from),
    }
}

#[test]
fn qualifies_without_dwell() {
    let m = mr(1, "a", 500, "main", MrState::Opened);
    assert!(qualifies(&m, &DwellPolicy { min_dwell_secs: None }, 500));
}

#[test]
fn qualifies_with_zero_dwell() {
    let m = mr(1, "a", 500, "main", MrState::Opened);
    assert!(qualifies(&m, &DwellPolicy { min_dwell_secs: Some(0) }, 500));
}

// Scenario: minimum dwell 3600 s, updated 1800 s ago — too fresh.
#[test]
fn qualifies_insufficient_dwell() {
    let now = 100_000;
    let m = mr(1, "a", now - 1800, "main", MrState::Opened);
    assert!(!qualifies(&m, &DwellPolicy { min_dwell_secs: Some(3600) }, now));
}

// Scenario: minimum dwell 3600 s, updated 7200 s ago — qualifies.
#[test]
fn qualifies_sufficient_dwell() {
    let now = 100_000;
    let m = mr(1, "a", now - 7200, "main", MrState::Opened);
    assert!(qualifies(&m, &DwellPolicy { min_dwell_secs: Some(3600) }, now));
}

#[test]
fn qualifies_at_exact_threshold() {
    let now = 100_000;
    let m = mr(1, "a", now - 3600, "main", MrState::Opened);
    assert!(qualifies(&m, &DwellPolicy { min_dwell_secs: Some(3600) }, now));
}

// A future update timestamp never qualifies once a dwell is configured,
// whatever the threshold.
#[test]
fn qualifies_never_on_future_update() {
    let now = 100_000;
    let m = mr(1, "a", now + 10, "main", MrState::Opened);
    assert!(!qualifies(&m, &DwellPolicy { min_dwell_secs: Some(0) }, now));
    assert!(!qualifies(&m, &DwellPolicy { min_dwell_secs: Some(-100) }, now));
}

#[test]
fn qualifies_at_integer_extremes() {
    let m = mr(1, "a", i64::MIN, "main", MrState::Opened);
    assert!(qualifies(&m, &DwellPolicy { min_dwell_secs: Some(3600) }, i64::MAX));
    let m2 = mr(1, "a", i64::MAX, "main", MrState::Opened);
    assert!(!qualifies(&m2, &DwellPolicy { min_dwell_secs: Some(3600) }, i64::MIN));
}

// Only open merge requests pass the source boundary.
#[test]
fn source_filter_drops_non_open() {
    let items = vec![
        mr(1, "open", 0, "main", MrState::Opened),
        mr(2, "merged", 0, "main", MrState::Merged),
        mr(3, "closed", 0, "main", MrState::Closed),
        mr(4, "locked", 0, "main", MrState::Locked),
        mr(5, "open too", 0, "main", MrState::Opened),
    ];
    let kept = source_filter(&items, &None);
    let ids: Vec<u64> = kept.iter().map(|m| m.id).collect();
    assert_eq!(ids, vec![1, 5]);
}

// With a target-branch filter, every kept item targets exactly that branch.
#[test]
fn source_filter_branch_exact_match() {
    let items = vec![
        mr(1, "a", 0, "main", MrState::Opened),
        mr(2, "b", 0, "develop", MrState::Opened),
        mr(3, "c", 0, "Main", MrState::Opened),
        mr(4, "d", 0, "main", MrState::Opened),
    ];
    let kept = source_filter(&items, &Some(String::from("main")));
    let ids: Vec<u64> = kept.iter().map(|m| m.id).collect();
    assert_eq!(ids, vec![1, 4]);
    for m in &kept {
        assert_eq!(m.target_branch, "main");
    }
}

#[test]
fn source_filter_empty_input() {
    let kept = source_filter(&Vec::new(), &Some(String::from("main")));
    assert!(kept.is_empty());
}

// Scenario: no filter, no dwell, one open merge request updated just now.
#[test]
fn plan_single_fresh_mr_without_policy() {
    let now = 100_000;
    let items = vec![mr(42, "Fix bug", now, "main", MrState::Opened)];
    let plans = plan_notifications(&items, &cfg(None, None, None), now);
    assert_eq!(plans.len(), 1);
    assert!(plans[0].text.contains("MR #42"));
    assert!(plans[0].text.contains("Fix bug"));
    assert!(!plans[0].text.contains("target branch"));
}

// Scenario: the dwell policy suppresses a too-fresh merge request entirely.
#[test]
fn plan_suppresses_fresh_mr() {
    let now = 100_000;
    let items = vec![mr(42, "Fix bug", now - 1800, "main", MrState::Opened)];
    let plans = plan_notifications(&items, &cfg(None, Some(3600), None), now);
    assert_eq!(plans.len(), 0);
}

// Scenario: a long-idle merge request is notified about.
#[test]
fn plan_emits_idle_mr() {
    let now = 100_000;
    let items = vec![mr(42, "Fix bug", now - 7200, "main", MrState::Opened)];
    let c = cfg(None, Some(3600), Some("https://hooks.example.com/T000/B000"));
    let plans = plan_notifications(&items, &c, now);
    assert_eq!(plans.len(), 1);
    let sinks = active_sinks(&c);
    assert_eq!(sinks.len(), 2);
    assert!(matches!(sinks[0], SinkTarget::Console));
    match &sinks[1] {
        SinkTarget::Webhook(u) => assert_eq!(u, "https://hooks.example.com/T000/B000"),
        SinkTarget::Console => panic!("webhook sink expected"),
    }
}

#[test]
fn plan_mixed_batch_keeps_order() {
    let now = 100_000;
    let items = vec![
        mr(1, "old main", now - 7200, "main", MrState::Opened),
        mr(2, "merged", now - 7200, "main", MrState::Merged),
        mr(3, "wrong branch", now - 7200, "develop", MrState::Opened),
        mr(4, "too fresh", now - 10, "main", MrState::Opened),
        mr(5, "old main too", now - 9999, "main", MrState::Opened),
    ];
    let c = cfg(Some("main"), Some(3600), None);
    let plans = plan_notifications(&items, &c, now);
    assert_eq!(plans.len(), 2);
    assert!(plans[0].text.contains("MR #1"));
    assert!(plans[1].text.contains("MR #5"));
    assert!(plans[0].text.contains("to target branch: main."));
}

// Idempotence: the same fetched data, configuration and clock plan the same
// payloads twice.
#[test]
fn plan_twice_is_identical() {
    let now = 100_000;
    let items = vec![
        mr(1, "one", now - 7200, "main", MrState::Opened),
        mr(2, "two", now - 9600, "main", MrState::Opened),
    ];
    let c = cfg(Some("main"), Some(3600), None);
    let p1 = plan_notifications(&items, &c, now);
    let p2 = plan_notifications(&items, &c, now);
    assert_eq!(p1.len(), p2.len());
    for (a, b) in p1.iter().zip(p2.iter()) {
        assert_eq!(a.text, b.text);
        assert_eq!(a.summary, b.summary);
        assert_eq!(a.block_markdown, b.block_markdown);
    }
}

// The webhook setting changes where payloads go, never what is planned.
#[test]
fn plan_ignores_webhook_setting() {
    let now = 100_000;
    let items = vec![mr(1, "one", now - 7200, "main", MrState::Opened)];
    let with_hook = cfg(None, Some(3600), Some("https://hooks.example.com/T/B"));
    let without = cfg(None, Some(3600), None);
    let p1 = plan_notifications(&items, &with_hook, now);
    let p2 = plan_notifications(&items, &without, now);
    assert_eq!(p1.len(), p2.len());
    assert_eq!(p1[0].text, p2[0].text);
}

#[test]
fn sinks_console_only_by_default() {
    let sinks = active_sinks(&cfg(None, None, None));
    assert_eq!(sinks.len(), 1);
    assert!(matches!(sinks[0], SinkTarget::Console));
}

// Scenario: one webhook dispatch fails under continue-and-report — every
// payload was still planned, and the run's verdict reflects the failure.
#[test]
fn failed_dispatch_reported_but_run_continues() {
    let now = 100_000;
    let items = vec![
        mr(1, "one", now - 7200, "main", MrState::Opened),
        mr(2, "two", now - 7200, "main", MrState::Opened),
    ];
    let c = cfg(None, None, Some("https://hooks.example.com/T/B"));
    let plans = plan_notifications(&items, &c, now);
    assert_eq!(plans.len(), 2);
    // The delivery layer reports one failure and one delivery; both were
    // attempted, and the run as a whole counts as failed.
    let outcomes = vec![DispatchOutcome::Failed, DispatchOutcome::Delivered];
    assert!(!run_succeeded(&outcomes));
}

#[test]
fn run_succeeds_when_all_delivered() {
    let outcomes = vec![DispatchOutcome::Delivered, DispatchOutcome::Delivered];
    assert!(run_succeeded(&outcomes));
}

#[test]
fn run_succeeds_with_nothing_to_dispatch() {
    assert!(run_succeeded(&Vec::new()));
}
