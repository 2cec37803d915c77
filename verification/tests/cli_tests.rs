use spark_debugger::audit::{
    assemble_report, BuildAuditResult, InvariantAuditResult, ServiceAuditResult,
};
use spark_debugger::cli::{check_banner, render_check_report, render_service_row, select_mode, CliCommand, RunMode};

#[test]
fn mcp_wins_then_daemon_then_check() {
    assert_eq!(select_mode(true, true, Some(CliCommand::Daemon)), RunMode::Mcp);
    assert_eq!(select_mode(false, false, Some(CliCommand::Mcp)), RunMode::Mcp);
    assert_eq!(select_mode(false, true, Some(CliCommand::Check)), RunMode::Daemon);
    assert_eq!(select_mode(false, false, Some(CliCommand::Daemon)), RunMode::Daemon);
    assert_eq!(select_mode(false, false, Some(CliCommand::Check)), RunMode::Check);
    assert_eq!(select_mode(false, false, None), RunMode::Check);
}

#[test]
fn service_rows_match_the_format_string() {
    let s = ServiceAuditResult {
        name: "Cortex Memory".to_string(),
        endpoint: "http://127.0.0.1:18080/health".to_string(),
        reachable: true,
        status_code: Some(200),
        latency_ms: 12,
    };
    let want = format!(
        "{:<22} {:<38} {:<10} {:<10}",
        s.name,
        s.endpoint,
        format!("{} ({})", "ONLINE", "200"),
        format!("{}ms", s.latency_ms)
    );
    assert_eq!(render_service_row(&s), want);
    let s = ServiceAuditResult { reachable: false, status_code: None, ..s };
    assert_eq!(
        render_service_row(&s),
        format!("{:<22} {:<38} {:<10} {:<10}", s.name, s.endpoint, "OFFLINE (-)", "12ms")
    );
}

#[test]
fn report_text() {
    assert_eq!(check_banner(), vec!["".to_string(), "=== SparkOS Sovereign Watchdog: System Diagnostic Audit ===".to_string()]);
    let r = assemble_report(
        "t".to_string(),
        vec![ServiceAuditResult {
            name: "A".to_string(),
            endpoint: "B".to_string(),
            reachable: false,
            status_code: Some(503),
            latency_ms: 5,
        }],
        InvariantAuditResult {
            passed: false,
            plaintext_env_files_found: vec!["/w/.env".to_string()],
            unredacted_secrets_found: 0,
            unslop_violations: vec![],
        },
        BuildAuditResult { passed: false, errors: vec!["error: e1".to_string()], warnings: vec![] },
    );
    let lines = render_check_report(&r);
    let want = vec![
        format!("{:<22} {:<38} {:<10} {:<10}", "SERVICE", "ENDPOINT", "STATUS", "LATENCY"),
        "-".repeat(82),
        format!("{:<22} {:<38} {:<10} {:<10}", "A", "B", "OFFLINE (503)", "5ms"),
        "-".repeat(82),
        "".to_string(),
        "--- Invariant Checks ---".to_string(),
        "TPM Vault Clean (Zero .env files): FAILED".to_string(),
        "  Leaked file: /w/.env".to_string(),
        "Unslop Standard (Zero em/en dashes): PASSED".to_string(),
        "".to_string(),
        "--- Workspace Compile Check ---".to_string(),
        "Cargo Check: FAILED".to_string(),
        "  error: e1".to_string(),
        "".to_string(),
        "Overall Diagnostic Status: ATTENTION REQUIRED".to_string(),
        "".to_string(),
    ];
    assert_eq!(lines, want);
}
