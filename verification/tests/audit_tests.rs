use serde_json::Value;
use spark_debugger::audit::{
    assemble_report, audit_services, audit_vault_and_unslop, audit_workspace_build,
    build_result_from_output, full_audit_roots, run_full_audit, run_full_audit_at, service_endpoints,
    service_result, timestamp_of, unix_time,
    BuildAuditResult, CargoRun, DirEntryName, InvariantAuditResult, ProbeOutcome,
    ServiceAuditResult, ServiceEndpoint, SystemAuditReport, SERVICE_COUNT,
};
use spark_debugger::outside::ClockReading;

fn strings_to_json(v: &[String]) -> Value {
    Value::Array(v.iter().map(|s| Value::String(s.clone())).collect())
}

fn strings_from_json(v: &Value) -> Vec<String> {
    v.as_array().unwrap().iter().map(|s| s.as_str().unwrap().to_string()).collect()
}

fn report_to_json(r: &SystemAuditReport) -> Value {
    let mut services = Vec::new();
    for s in &r.services {
        let mut m = serde_json::Map::new();
        m.insert("name".to_string(), Value::String(s.name.clone()));
        m.insert("endpoint".to_string(), Value::String(s.endpoint.clone()));
        m.insert("reachable".to_string(), Value::Bool(s.reachable));
        m.insert(
            "status_code".to_string(),
            match s.status_code {
                Some(c) => Value::from(c),
                None => Value::Null,
            },
        );
        m.insert("latency_ms".to_string(), Value::from(s.latency_ms));
        services.push(Value::Object(m));
    }
    let mut inv = serde_json::Map::new();
    inv.insert("passed".to_string(), Value::Bool(r.invariants.passed));
    inv.insert(
        "plaintext_env_files_found".to_string(),
        strings_to_json(&r.invariants.plaintext_env_files_found),
    );
    inv.insert(
        "unredacted_secrets_found".to_string(),
        Value::from(r.invariants.unredacted_secrets_found),
    );
    inv.insert("unslop_violations".to_string(), strings_to_json(&r.invariants.unslop_violations));
    let mut build = serde_json::Map::new();
    build.insert("passed".to_string(), Value::Bool(r.build.passed));
    build.insert("errors".to_string(), strings_to_json(&r.build.errors));
    build.insert("warnings".to_string(), strings_to_json(&r.build.warnings));
    let mut top = serde_json::Map::new();
    top.insert("timestamp".to_string(), Value::String(r.timestamp.clone()));
    top.insert("services".to_string(), Value::Array(services));
    top.insert("invariants".to_string(), Value::Object(inv));
    top.insert("build".to_string(), Value::Object(build));
    top.insert("overall_healthy".to_string(), Value::Bool(r.overall_healthy));
    Value::Object(top)
}

fn report_from_json(v: &Value) -> SystemAuditReport {
    let services = v["services"]
        .as_array()
        .unwrap()
        .iter()
        .map(|s| ServiceAuditResult {
            name: s["name"].as_str().unwrap().to_string(),
            endpoint: s["endpoint"].as_str().unwrap().to_string(),
            reachable: s["reachable"].as_bool().unwrap(),
            status_code: s["status_code"].as_u64().map(|c| c as u16),
            latency_ms: s["latency_ms"].as_u64().unwrap(),
        })
        .collect();
    let inv = &v["invariants"];
    let build = &v["build"];
    SystemAuditReport {
        timestamp: v["timestamp"].as_str().unwrap().to_string(),
        services,
        invariants: InvariantAuditResult {
            passed: inv["passed"].as_bool().unwrap(),
            plaintext_env_files_found: strings_from_json(&inv["plaintext_env_files_found"]),
            unredacted_secrets_found: inv["unredacted_secrets_found"].as_u64().unwrap() as usize,
            unslop_violations: strings_from_json(&inv["unslop_violations"]),
        },
        build: BuildAuditResult {
            passed: build["passed"].as_bool().unwrap(),
            errors: strings_from_json(&build["errors"]),
            warnings: strings_from_json(&build["warnings"]),
        },
        overall_healthy: v["overall_healthy"].as_bool().unwrap(),
    }
}

#[test]
fn test_system_audit_report_serialization() {
    let report = SystemAuditReport {
        timestamp: "2026-09-18T12:00:00Z".to_string(),
        services: vec![ServiceAuditResult {
            name: "Cortex Memory".to_string(),
            endpoint: "http://127.0.0.1:18080/health".to_string(),
            reachable: true,
            status_code: Some(200),
            latency_ms: 1,
        }],
        invariants: InvariantAuditResult {
            passed: true,
            plaintext_env_files_found: vec![],
            unredacted_secrets_found: 0,
            unslop_violations: vec![],
        },
        build: BuildAuditResult { passed: true, errors: vec![], warnings: vec![] },
        overall_healthy: true,
    };

    let json = serde_json::to_string(&report_to_json(&report)).expect("serializable");
    let parsed_value: Value = serde_json::from_str(&json).expect("deserializable");
    let parsed = report_from_json(&parsed_value);
    assert_eq!(parsed.services.len(), 1);
    assert!(parsed.overall_healthy);
    assert_eq!(parsed.services[0].name, "Cortex Memory");
    assert!(parsed.invariants.passed);
}

fn ok_build() -> BuildAuditResult {
    BuildAuditResult { passed: true, errors: vec![], warnings: vec![] }
}

fn clean_invariants() -> InvariantAuditResult {
    InvariantAuditResult {
        passed: true,
        plaintext_env_files_found: vec![],
        unredacted_secrets_found: 0,
        unslop_violations: vec![],
    }
}

#[test]
fn service_table_lists_the_five_services_in_order() {
    let eps = service_endpoints();
    assert_eq!(eps.len(), SERVICE_COUNT);
    let names: Vec<&str> = eps.iter().map(|e| e.name.as_str()).collect();
    assert_eq!(
        names,
        vec![
            "Cortex Memory",
            "Sovereign Cockpit",
            "Cortex ONNX Encoder",
            "Modular MAX LLM",
            "Matrix Conduit"
        ]
    );
    assert_eq!(eps[4].endpoint, "http://127.0.0.1:6167");
    assert_eq!(eps[1].endpoint, "http://127.0.0.1:18095/api/pulse");
}

#[test]
fn reachability_is_a_status_below_500() {
    let ep = ServiceEndpoint { name: "X".to_string(), endpoint: "http://x".to_string() };
    let r = service_result(&ep, &ProbeOutcome { status: Some(499), latency_ms: 7 });
    assert!(r.reachable);
    assert_eq!(r.status_code, Some(499));
    assert_eq!(r.latency_ms, 7);
    let r = service_result(&ep, &ProbeOutcome { status: Some(500), latency_ms: 3 });
    assert!(!r.reachable);
    assert_eq!(r.status_code, Some(500));
    let r = service_result(&ep, &ProbeOutcome { status: Some(404), latency_ms: 3 });
    assert!(r.reachable);
    let r = service_result(&ep, &ProbeOutcome { status: None, latency_ms: 1500 });
    assert!(!r.reachable);
    assert_eq!(r.status_code, None);
    assert_eq!(r.name, "X");
    assert_eq!(r.endpoint, "http://x");
}

#[test]
fn audit_services_pairs_probes_with_the_table() {
    let probes = vec![
        ProbeOutcome { status: Some(200), latency_ms: 1 },
        ProbeOutcome { status: Some(503), latency_ms: 2 },
        ProbeOutcome { status: None, latency_ms: 3 },
        ProbeOutcome { status: Some(301), latency_ms: 4 },
        ProbeOutcome { status: Some(200), latency_ms: 5 },
    ];
    let r = audit_services(&probes);
    assert_eq!(r.len(), 5);
    assert_eq!(r[0].name, "Cortex Memory");
    assert!(r[0].reachable);
    assert!(!r[1].reachable);
    assert!(!r[2].reachable);
    assert!(r[3].reachable);
    assert_eq!(r[4].latency_ms, 5);
    assert_eq!(r[2].endpoint, "http://127.0.0.1:18081/health");
}

fn entry(name: &str, path: &str) -> DirEntryName {
    DirEntryName { file_name: name.to_string(), path: path.to_string() }
}

#[test]
fn env_files_fail_the_vault_invariant() {
    let dirs = vec![
        vec![entry("Cargo.toml", "/w/Cargo.toml"), entry(".env", "/w/.env"), entry("src", "/w/src")],
        vec![],
        vec![entry(".env.local", "/c/.env.local"), entry("env", "/c/env"), entry("x.env", "/c/x.env")],
    ];
    let r = audit_vault_and_unslop(&dirs);
    assert!(!r.passed);
    assert_eq!(r.plaintext_env_files_found, vec!["/w/.env".to_string(), "/c/.env.local".to_string()]);
    assert_eq!(r.unredacted_secrets_found, 0);
    assert!(r.unslop_violations.is_empty());
}

#[test]
fn clean_workspaces_pass_the_vault_invariant() {
    let dirs = vec![vec![entry("README.md", "/w/README.md")], vec![entry(".envrc", "/x/.envrc")]];
    // `.envrc` starts with `.env`, so it counts as a plaintext secret file.
    let r = audit_vault_and_unslop(&dirs);
    assert!(!r.passed);
    let r = audit_vault_and_unslop(&vec![vec![entry("README.md", "/w/README.md")], vec![]]);
    assert!(r.passed);
    assert!(r.plaintext_env_files_found.is_empty());
    let r = audit_vault_and_unslop(&vec![]);
    assert!(r.passed);
}

#[test]
fn compiler_output_is_sorted_into_errors_and_warnings() {
    let text = "warning: unused variable\nerror[E0308]: mismatched types\n  --> src/lib.rs:1:1\nwarning: profiles for the non root package will be ignored\nerror: could not compile\r\nwarning: x\n".to_string();
    let r = build_result_from_output(false, &text);
    assert!(!r.passed);
    assert_eq!(
        r.errors,
        vec!["error[E0308]: mismatched types".to_string(), "error: could not compile".to_string()]
    );
    assert_eq!(r.warnings, vec!["warning: unused variable".to_string(), "warning: x".to_string()]);
}

#[test]
fn finished_build_decodes_stderr_lossily() {
    let mut bytes = b"error: bad \xff byte\nwarning: w".to_vec();
    bytes.push(b'\n');
    let r = audit_workspace_build(&CargoRun::Finished { success: true, stderr: bytes });
    assert!(r.passed);
    assert_eq!(r.errors, vec!["error: bad \u{FFFD} byte".to_string()]);
    assert_eq!(r.warnings, vec!["warning: w".to_string()]);
    let r = audit_workspace_build(&CargoRun::Finished { success: true, stderr: vec![] });
    assert!(r.passed && r.errors.is_empty() && r.warnings.is_empty());
}

#[test]
fn launch_failure_is_one_error() {
    let r = audit_workspace_build(&CargoRun::LaunchFailed {
        reason: "No such file or directory (os error 2)".to_string(),
    });
    assert!(!r.passed);
    assert_eq!(
        r.errors,
        vec!["Failed to run cargo check: No such file or directory (os error 2)".to_string()]
    );
    assert!(r.warnings.is_empty());
}

fn svc(reachable: bool) -> ServiceAuditResult {
    ServiceAuditResult {
        name: "S".to_string(),
        endpoint: "E".to_string(),
        reachable,
        status_code: if reachable { Some(200) } else { None },
        latency_ms: 0,
    }
}

#[test]
fn overall_health_needs_every_part() {
    let r = assemble_report("t".to_string(), vec![svc(true), svc(true)], clean_invariants(), ok_build());
    assert!(r.overall_healthy);
    assert_eq!(r.timestamp, "t");
    let r = assemble_report("t".to_string(), vec![svc(true), svc(false)], clean_invariants(), ok_build());
    assert!(!r.overall_healthy);
    let mut inv = clean_invariants();
    inv.passed = false;
    let r = assemble_report("t".to_string(), vec![svc(true)], inv, ok_build());
    assert!(!r.overall_healthy);
    let mut b = ok_build();
    b.passed = false;
    let r = assemble_report("t".to_string(), vec![], clean_invariants(), b);
    assert!(!r.overall_healthy);
    let r = assemble_report("t".to_string(), vec![], clean_invariants(), ok_build());
    assert!(r.overall_healthy);
}

#[test]
fn full_audit_is_stamped_in_utc() {
    let r = run_full_audit(vec![svc(true)], clean_invariants(), ok_build()).unwrap();
    assert!(r.timestamp.ends_with("+00:00"));
    assert_eq!(&r.timestamp[4..5], "-");
    assert!(r.timestamp.contains('T'));
    assert!(r.overall_healthy);
    assert_eq!(r.services.len(), 1);
}

#[test]
fn full_audit_scans_workspace_and_cockpit() {
    assert_eq!(
        full_audit_roots("/ws"),
        vec!["/ws".to_string(), "/home/drakestapleton/spark-cockpit-rs".to_string()]
    );
}

fn reading(before_epoch: bool, secs: u64, nanos: u32) -> ClockReading {
    ClockReading { before_epoch, secs, nanos }
}

#[test]
fn clock_readings_are_dated_as_chrono_dates_them() {
    assert_eq!(timestamp_of(&reading(false, 0, 0)).unwrap(), "1970-01-01T00:00:00+00:00");
    assert_eq!(
        timestamp_of(&reading(false, 1_789_732_800, 0)).unwrap(),
        "2026-09-18T12:00:00+00:00"
    );
    assert_eq!(
        timestamp_of(&reading(false, 1, 250_000_000)).unwrap(),
        "1970-01-01T00:00:01.250+00:00"
    );
    assert_eq!(
        timestamp_of(&reading(true, 1, 500_000_000)).unwrap(),
        "1969-12-31T23:59:58.500+00:00"
    );
    assert_eq!(timestamp_of(&reading(true, 60, 0)).unwrap(), "1969-12-31T23:59:00+00:00");
    assert_eq!(unix_time(&reading(true, 5, 1)), Some((-6, 999_999_999)));
    assert_eq!(unix_time(&reading(false, u64::MAX, 0)), None);
    assert_eq!(timestamp_of(&reading(false, u64::MAX, 0)), None);
    assert_eq!(timestamp_of(&reading(false, i64::MAX as u64, 0)), None);
    assert_eq!(
        timestamp_of(&reading(false, 8210266876799, 0)).unwrap(),
        "+262142-12-31T23:59:59+00:00"
    );
    assert_eq!(timestamp_of(&reading(false, 8210266876800, 0)), None);
    assert_eq!(
        timestamp_of(&reading(true, 8334601228800, 0)).unwrap(),
        "-262143-01-01T00:00:00+00:00"
    );
    assert_eq!(timestamp_of(&reading(true, 8334601228800, 1)), None);
    let r = run_full_audit_at(&reading(false, 0, 0), vec![], clean_invariants(), ok_build()).unwrap();
    assert_eq!(r.timestamp, "1970-01-01T00:00:00+00:00");
    assert!(r.overall_healthy);
    assert!(run_full_audit_at(&reading(false, i64::MAX as u64, 0), vec![], clean_invariants(), ok_build()).is_none());
}
