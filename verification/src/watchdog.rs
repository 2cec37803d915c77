//! The watchdog's decisions between two audits: how the run of failed audits
//! is counted, what the failure summary says, and when an incident is filed.

use vstd::prelude::*;
use crate::text::{views, join, decimal, decimal_string, join_strings, is_suffix, contains_seq, lemma_join_keeps_parts};
use crate::audit::{SystemAuditReport, ServiceAuditResult, report_consistent, all_reachable};

verus! {

/// The issue line for a service that did not answer below 500.
pub open spec fn unreachable_issue(s: ServiceAuditResult) -> Seq<char> {
    "Service "@ + s.name@ + " unreachable at "@ + s.endpoint@
}

/// The issue lines of the unreachable services, in order.
pub open spec fn service_issues(services: Seq<ServiceAuditResult>) -> Seq<Seq<char>>
    decreases services.len(),
{
    if services.len() == 0 {
        Seq::empty()
    } else if !services.last().reachable {
        service_issues(services.drop_last()).push(unreachable_issue(services.last()))
    } else {
        service_issues(services.drop_last())
    }
}

/// The issue line for failed invariants.
pub open spec fn invariant_issue() -> Seq<char> {
    "Vault or unslop invariants violated"@
}

/// The issue line for a failed build with `n` errors.
pub open spec fn build_issue(n: nat) -> Seq<char> {
    "Workspace build failed with "@ + decimal(n) + " errors"@
}

/// Every issue that a report shows, in the order the watchdog lists them.
pub open spec fn report_issues(r: SystemAuditReport) -> Seq<Seq<char>> {
    let s = service_issues(r.services@);
    let s = if !r.invariants.passed { s.push(invariant_issue()) } else { s };
    if !r.build.passed { s.push(build_issue(r.build.errors@.len())) } else { s }
}

/// The one-line summary of a failed audit: its issues joined by `; `.
pub open spec fn summary_of(r: SystemAuditReport) -> Seq<char> {
    join(report_issues(r), "; "@)
}

/// The failure summary of a report (`summary_of`).
pub fn failure_summary(report: &SystemAuditReport) -> (r: String)
    ensures
        r@ == summary_of(*report),
{
    let mut issues: Vec<String> = Vec::new();
    let services = &report.services;
    let mut i: usize = 0;
    while i < services.len()
        invariant
            i <= services.len(),
            views(issues@) == service_issues(services@.subrange(0, i as int)),
        decreases services.len() - i,
    {
        assert(services@.subrange(0, i + 1).drop_last() =~= services@.subrange(0, i as int));
        if !services[i].reachable {
            let line = String::from_str("Service ")
                .concat(services[i].name.as_str())
                .concat(" unreachable at ")
                .concat(services[i].endpoint.as_str());
            let ghost prev = issues@;
            issues.push(line);
            assert(views(issues@) =~= views(prev).push(unreachable_issue(services@[i as int])));
        }
        i = i + 1;
    }
    assert(services@.subrange(0, services.len() as int) =~= services@);
    if !report.invariants.passed {
        let ghost prev = issues@;
        issues.push(String::from_str("Vault or unslop invariants violated"));
        assert(views(issues@) =~= views(prev).push(invariant_issue()));
    }
    if !report.build.passed {
        let count = decimal_string(report.build.errors.len() as u64);
        let line = String::from_str("Workspace build failed with ")
            .concat(count.as_str())
            .concat(" errors");
        let ghost prev = issues@;
        issues.push(line);
        assert(views(issues@) =~= views(prev).push(build_issue(report.build.errors@.len())));
    }
    assert(views(issues@) == report_issues(*report));
    join_strings(&issues, "; ")
}

/// The failure counter after an audit: one more after a failed audit, back
/// to zero after a healthy one.
pub open spec fn next_failures(failures: int, healthy: bool) -> int {
    if healthy { 0 } else { failures + 1 }
}

/// Whether the failed audit numbered `attempt` in its run files an incident:
/// the first of a run, and every fifth.
pub open spec fn files_incident(attempt: int) -> bool {
    attempt == 1 || attempt % 5 == 0
}

/// The watchdog's bookkeeping between audits.
#[derive(Debug, Clone, Copy)]
pub struct WatchdogState {
    pub consecutive_failures: i32,
}

/// What the watchdog does after an audit.
#[derive(Debug, Clone)]
pub enum WatchdogAction {
    /// All healthy; `recovered` when this ends a run of failed audits.
    Healthy { recovered: bool },
    /// The audit failed; `attempt` is its number in the current run,
    /// `summary` lists the issues, and an incident is filed when
    /// `report_incident` holds.
    Failed { attempt: i32, summary: String, report_incident: bool },
}

/// The starting state: no failed audits yet.
pub fn initial_watchdog_state() -> (s: WatchdogState)
    ensures
        s.consecutive_failures == 0,
{
    WatchdogState { consecutive_failures: 0 }
}

/// One watchdog decision after an audit.
pub fn watchdog_step(state: WatchdogState, report: &SystemAuditReport) -> (r: (
    WatchdogState,
    WatchdogAction,
))
    requires
        0 <= state.consecutive_failures,
        !report.overall_healthy ==> state.consecutive_failures < i32::MAX,
    ensures
        r.0.consecutive_failures == next_failures(
            state.consecutive_failures as int,
            report.overall_healthy,
        ),
        report.overall_healthy ==> r.1 == (WatchdogAction::Healthy {
            recovered: state.consecutive_failures > 0,
        }),
        !report.overall_healthy ==> (r.1 matches WatchdogAction::Failed {
            attempt,
            summary,
            report_incident,
        } && attempt == r.0.consecutive_failures && summary@ == summary_of(*report)
            && report_incident == files_incident(attempt as int)),
{
    if !report.overall_healthy {
        let attempt = state.consecutive_failures + 1;
        let summary = failure_summary(report);
        let report_incident = attempt == 1 || attempt % 5 == 0;
        (
            WatchdogState { consecutive_failures: attempt },
            WatchdogAction::Failed { attempt, summary, report_incident },
        )
    } else {
        (
            WatchdogState { consecutive_failures: 0 },
            WatchdogAction::Healthy { recovered: state.consecutive_failures > 0 },
        )
    }
}

} // verus!

verus! {

proof fn lemma_service_issues_nonempty(services: Seq<ServiceAuditResult>)
    requires
        !all_reachable(services),
    ensures
        service_issues(services).len() > 0,
    decreases services.len(),
{
    if services.len() > 0 && services.last().reachable {
        let prefix = services.drop_last();
        assert(!all_reachable(prefix)) by {
            let i = choose|i: int| 0 <= i < services.len() && !(#[trigger] services[i]).reachable;
            assert(prefix[i] == services[i]);
        }
        lemma_service_issues_nonempty(prefix);
    }
}

proof fn lemma_join_len(parts: Seq<Seq<char>>, sep: Seq<char>)
    requires
        parts.len() > 0,
    ensures
        join(parts, sep).len() >= parts.last().len(),
{
}

/// An audit that a consistent report calls failed always names at least one
/// issue, so the watchdog's summary of it is never empty.
pub proof fn lemma_failed_audit_has_summary(r: SystemAuditReport)
    requires
        report_consistent(r),
        !r.overall_healthy,
    ensures
        report_issues(r).len() > 0,
        summary_of(r).len() > 0,
{
    reveal_strlit("Service ");
    reveal_strlit("Vault or unslop invariants violated");
    reveal_strlit("Workspace build failed with ");
    if !all_reachable(r.services@) {
        lemma_service_issues_nonempty(r.services@);
    }
    let issues = report_issues(r);
    lemma_join_len(issues, "; "@);
    lemma_service_issues_nonblank(r.services@);
}

proof fn lemma_service_issues_nonblank(services: Seq<ServiceAuditResult>)
    ensures
        forall|i: int|
            0 <= i < service_issues(services).len() ==> (#[trigger] service_issues(services)[i]).len() > 0,
    decreases services.len(),
{
    reveal_strlit("Service ");
    if services.len() > 0 {
        let prev = services.drop_last();
        lemma_service_issues_nonblank(prev);
        let all = service_issues(services);
        assert forall|i: int| 0 <= i < all.len() implies (#[trigger] all[i]).len() > 0 by {
            if i < service_issues(prev).len() {
                assert(all[i] == service_issues(prev)[i]);
            } else {
                assert(all[i] == unreachable_issue(services.last()));
                assert("Service "@.len() == 8);
            }
        }
    }
}

} // verus!

verus! {

/// The watchdog replayed from its starting state over the verdicts of a
/// series of audits (`true` for healthy): the failure counter it ends with
/// and the number of incidents it filed on the way.
pub open spec fn replay(healthy: Seq<bool>) -> (int, nat)
    decreases healthy.len(),
{
    if healthy.len() == 0 {
        (0, 0)
    } else {
        let (c, n) = replay(healthy.drop_last());
        let c2 = next_failures(c, healthy.last());
        (c2, if !healthy.last() && files_incident(c2) { n + 1 } else { n })
    }
}

/// The failure counter is the length of the current run of failed audits:
/// the last `c` audits all failed, and the one before them, if any, was
/// healthy.
pub proof fn lemma_counter_is_current_run(healthy: Seq<bool>)
    ensures
        0 <= replay(healthy).0 <= healthy.len(),
        forall|i: int|
            healthy.len() - replay(healthy).0 <= i < healthy.len() ==> !(#[trigger] healthy[i]),
        replay(healthy).0 < healthy.len() ==> healthy[healthy.len() - replay(healthy).0 - 1],
    decreases healthy.len(),
{
    if healthy.len() > 0 {
        let prev = healthy.drop_last();
        lemma_counter_is_current_run(prev);
        assert forall|i: int|
            healthy.len() - replay(healthy).0 <= i < healthy.len() implies !(#[trigger] healthy[i]) by {
            if i < healthy.len() - 1 {
                assert(healthy[i] == prev[i]);
            }
        }
        if replay(healthy).0 < healthy.len() && !healthy.last() {
            assert(healthy[healthy.len() - replay(healthy).0 - 1] == prev[prev.len()
                - replay(prev).0 - 1]);
        }
    }
}

/// A run of `n >= 1` failed audits from a healthy start files `1 + n / 5`
/// incidents: on its first audit and on every fifth.
pub proof fn lemma_incidents_per_failure_run(healthy: Seq<bool>)
    requires
        forall|i: int| 0 <= i < healthy.len() ==> !(#[trigger] healthy[i]),
    ensures
        replay(healthy).0 == healthy.len(),
        replay(healthy).1 == if healthy.len() == 0 { 0 } else { 1 + healthy.len() / 5 },
    decreases healthy.len(),
{
    if healthy.len() > 0 {
        let prev = healthy.drop_last();
        assert forall|i: int| 0 <= i < prev.len() implies !(#[trigger] prev[i]) by {
            assert(prev[i] == healthy[i]);
        }
        lemma_incidents_per_failure_run(prev);
        assert(!healthy.last());
    }
}

/// A healthy audit always clears the counter, so the first failed audit
/// after it is attempt one and files an incident.
pub proof fn lemma_first_failure_after_recovery_reports(healthy: Seq<bool>)
    requires
        healthy.len() >= 2,
        healthy[healthy.len() - 2],
        !healthy.last(),
    ensures
        replay(healthy).0 == 1,
        replay(healthy).1 == replay(healthy.drop_last()).1 + 1,
{
    let prev = healthy.drop_last();
    assert(prev.last() == healthy[healthy.len() - 2]);
    assert(replay(prev).0 == next_failures(replay(prev.drop_last()).0, prev.last()));
    assert(replay(prev).0 == 0);
}

} // verus!

verus! {

/// `watchdog_step` is one step of `replay`: from the counter that a history
/// of audits leaves, an audit with the given verdict leads to the counter the
/// longer history leaves, and it files an incident exactly when the longer
/// history counts one more.
pub proof fn lemma_step_follows_replay(history: Seq<bool>, healthy: bool)
    ensures
        replay(history.push(healthy)).0 == next_failures(replay(history).0, healthy),
        replay(history.push(healthy)).1 == replay(history).1 + if !healthy && files_incident(
            next_failures(replay(history).0, healthy),
        ) {
            1nat
        } else {
            0nat
        },
{
    assert(history.push(healthy).drop_last() =~= history);
}

} // verus!

verus! {

/// After any history of audits, the last audit files an incident exactly
/// when it failed and the run of failed audits it ends has length 1 or a
/// multiple of 5; that length `c` is the number of audits since the last
/// healthy one.
pub proof fn lemma_incident_on_first_and_every_fifth(healthy: Seq<bool>)
    requires
        healthy.len() > 0,
    ensures
        (replay(healthy).1 == replay(healthy.drop_last()).1 + 1) <==> (!healthy.last() && (
        replay(healthy).0 == 1 || replay(healthy).0 % 5 == 0)),
        replay(healthy).1 == replay(healthy.drop_last()).1 || replay(healthy).1 == replay(
            healthy.drop_last(),
        ).1 + 1,
        forall|i: int|
            healthy.len() - replay(healthy).0 <= i < healthy.len() ==> !(#[trigger] healthy[i]),
        replay(healthy).0 < healthy.len() ==> healthy[healthy.len() - replay(healthy).0 - 1],
{
    lemma_counter_is_current_run(healthy);
    lemma_counter_is_current_run(healthy.drop_last());
}

} // verus!

verus! {

proof fn lemma_service_issues_match_services(services: Seq<ServiceAuditResult>)
    ensures
        forall|i: int|
            0 <= i < services.len() && !(#[trigger] services[i]).reachable ==> exists|j: int|
                0 <= j < service_issues(services).len() && service_issues(services)[j]
                    == unreachable_issue(services[i]),
        forall|j: int|
            0 <= j < service_issues(services).len() ==> exists|i: int|
                0 <= i < services.len() && !services[i].reachable && #[trigger] service_issues(
                    services,
                )[j] == unreachable_issue(services[i]),
    decreases services.len(),
{
    if services.len() > 0 {
        let prev = services.drop_last();
        let before = service_issues(prev);
        let all = service_issues(services);
        lemma_service_issues_match_services(prev);
        assert(all.len() >= before.len());
        assert forall|j: int| 0 <= j < before.len() implies all[j] == before[j] by {}
        assert forall|i: int| 0 <= i < services.len() && !(#[trigger] services[i]).reachable implies exists|j: int|
            0 <= j < all.len() && all[j] == unreachable_issue(services[i]) by {
            if i < prev.len() {
                assert(prev[i] == services[i]);
                let j = choose|j: int| 0 <= j < before.len() && before[j] == unreachable_issue(prev[i]);
                assert(all[j] == before[j]);
            } else {
                assert(all[before.len() as int] == unreachable_issue(services.last()));
            }
        }
        assert forall|j: int| 0 <= j < all.len() implies exists|i: int|
            0 <= i < services.len() && !services[i].reachable && #[trigger] all[j]
                == unreachable_issue(services[i]) by {
            if j < before.len() {
                assert(before[j] == before[j]);
                let i = choose|i: int|
                    0 <= i < prev.len() && !prev[i].reachable && before[j] == unreachable_issue(prev[i]);
                assert(prev[i] == services[i]);
                assert(all[j] == before[j]);
            } else {
                assert(services[services.len() - 1] == services.last());
            }
        }
    }
}

/// The failure summary names every issue of the report and nothing else:
/// each unreachable service with its endpoint, the failed invariants, and a
/// failed build with its number of errors, which always comes last; each of
/// these is listed whatever else failed, and a report with nothing failed
/// has an empty summary.
pub proof fn lemma_summary_names_every_issue(r: SystemAuditReport)
    ensures
        !r.build.passed ==> is_suffix(
            "Workspace build failed with "@ + decimal(r.build.errors@.len()) + " errors"@,
            summary_of(r),
        ),
        !r.invariants.passed ==> contains_seq(summary_of(r), "Vault or unslop invariants violated"@),
        forall|i: int|
            0 <= i < r.services@.len() && !(#[trigger] r.services@[i]).reachable ==> contains_seq(
                summary_of(r),
                "Service "@ + r.services@[i].name@ + " unreachable at "@ + r.services@[i].endpoint@,
            ),
        forall|j: int|
            0 <= j < report_issues(r).len() ==> {
                ||| exists|i: int|
                    0 <= i < r.services@.len() && !r.services@[i].reachable && #[trigger] report_issues(r)[j]
                        == "Service "@ + r.services@[i].name@ + " unreachable at "@
                        + r.services@[i].endpoint@
                ||| !r.invariants.passed && report_issues(r)[j] == "Vault or unslop invariants violated"@
                ||| !r.build.passed && report_issues(r)[j] == "Workspace build failed with "@ + decimal(
                    r.build.errors@.len(),
                ) + " errors"@
            },
        all_reachable(r.services@) && r.invariants.passed && r.build.passed ==> summary_of(r)
            == Seq::<char>::empty(),
{
    let si = service_issues(r.services@);
    let s1 = if !r.invariants.passed { si.push(invariant_issue()) } else { si };
    let issues = report_issues(r);
    lemma_service_issues_match_services(r.services@);
    lemma_join_keeps_parts(issues, "; "@);
    assert forall|j: int| 0 <= j < si.len() implies issues[j] == si[j] by {
        assert(s1[j] == si[j]);
    }
    if !r.build.passed {
        assert(issues.last() == build_issue(r.build.errors@.len()));
    }
    if !r.invariants.passed {
        assert(issues[si.len() as int] == invariant_issue());
    }
    assert forall|i: int|
        0 <= i < r.services@.len() && !(#[trigger] r.services@[i]).reachable implies contains_seq(
        summary_of(r),
        "Service "@ + r.services@[i].name@ + " unreachable at "@ + r.services@[i].endpoint@,
    ) by {
        let j = choose|j: int| 0 <= j < si.len() && si[j] == unreachable_issue(r.services@[i]);
        assert(issues[j] == si[j]);
    }
    assert forall|j: int| 0 <= j < issues.len() implies {
        ||| exists|i: int|
            0 <= i < r.services@.len() && !r.services@[i].reachable && #[trigger] issues[j]
                == "Service "@ + r.services@[i].name@ + " unreachable at "@ + r.services@[i].endpoint@
        ||| !r.invariants.passed && issues[j] == "Vault or unslop invariants violated"@
        ||| !r.build.passed && issues[j] == "Workspace build failed with "@ + decimal(
            r.build.errors@.len(),
        ) + " errors"@
    } by {
        if j < si.len() {
            assert(issues[j] == si[j]);
            assert(si[j] == si[j]);
        } else if j < s1.len() {
            assert(issues[j] == s1[j]);
        }
    }
    if all_reachable(r.services@) && r.invariants.passed && r.build.passed {
        if si.len() > 0 {
            assert(si[0] == si[0]);
        }
        assert(issues.len() == 0);
    }
}

} // verus!
