use spark_debugger::audit::{
    assemble_report, BuildAuditResult, InvariantAuditResult, ServiceAuditResult, SystemAuditReport,
};
use spark_debugger::watchdog::{failure_summary, initial_watchdog_state, watchdog_step, WatchdogAction};

fn report(reachable: &[bool], inv_ok: bool, build_errors: Option<usize>) -> SystemAuditReport {
    let services = reachable
        .iter()
        .enumerate()
        .map(|(i, r)| ServiceAuditResult {
            name: format!("S{}", i),
            endpoint: format!("http://h/{}", i),
            reachable: *r,
            status_code: None,
            latency_ms: 0,
        })
        .collect();
    let invariants = InvariantAuditResult {
        passed: inv_ok,
        plaintext_env_files_found: vec![],
        unredacted_secrets_found: 0,
        unslop_violations: vec![],
    };
    let build = match build_errors {
        None => BuildAuditResult { passed: true, errors: vec![], warnings: vec![] },
        Some(n) => BuildAuditResult {
            passed: false,
            errors: (0..n).map(|i| format!("error {}", i)).collect(),
            warnings: vec![],
        },
    };
    assemble_report("t".to_string(), services, invariants, build)
}

#[test]
fn summary_lists_every_issue() {
    let r = report(&[true, false, false], false, Some(12));
    assert_eq!(
        failure_summary(&r),
        "Service S1 unreachable at http://h/1; Service S2 unreachable at http://h/2; Vault or unslop invariants violated; Workspace build failed with 12 errors"
    );
    let r = report(&[true], true, Some(0));
    assert_eq!(failure_summary(&r), "Workspace build failed with 0 errors");
    let r = report(&[true], true, None);
    assert_eq!(failure_summary(&r), "");
}

#[test]
fn failed_audits_count_up_and_file_incidents_on_first_and_every_fifth() {
    let bad = report(&[false], true, None);
    let mut state = initial_watchdog_state();
    let mut filed = Vec::new();
    for n in 1..=12 {
        let (next, action) = watchdog_step(state, &bad);
        state = next;
        match action {
            WatchdogAction::Failed { attempt, summary, report_incident } => {
                assert_eq!(attempt, n);
                assert_eq!(summary, "Service S0 unreachable at http://h/0");
                if report_incident {
                    filed.push(attempt);
                }
            }
            other => panic!("unexpected {:?}", other),
        }
    }
    assert_eq!(state.consecutive_failures, 12);
    assert_eq!(filed, vec![1, 5, 10]);
    assert_eq!(filed.len() as i32, 1 + 12 / 5);
}

#[test]
fn healthy_audit_resets_and_reports_recovery() {
    let bad = report(&[true], false, None);
    let good = report(&[true, true], true, None);
    let s0 = initial_watchdog_state();
    let (s1, a) = watchdog_step(s0, &good);
    assert!(matches!(a, WatchdogAction::Healthy { recovered: false }));
    assert_eq!(s1.consecutive_failures, 0);
    let (s2, _) = watchdog_step(s1, &bad);
    let (s3, _) = watchdog_step(s2, &bad);
    assert_eq!(s3.consecutive_failures, 2);
    let (s4, a) = watchdog_step(s3, &good);
    assert!(matches!(a, WatchdogAction::Healthy { recovered: true }));
    assert_eq!(s4.consecutive_failures, 0);
    let (s5, a) = watchdog_step(s4, &bad);
    assert_eq!(s5.consecutive_failures, 1);
    assert!(matches!(a, WatchdogAction::Failed { attempt: 1, report_incident: true, .. }));
}
