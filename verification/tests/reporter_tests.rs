use spark_debugger::audit::{
    assemble_report, BuildAuditResult, InvariantAuditResult, ServiceAuditResult,
};
use spark_debugger::reporter::{
    alert_comb, alert_comb_with, bearer_header, cortex_incident, cortex_payload_json,
    cortex_request_headers, cortex_token_path,
    cortex_write_url, hive_db_path, hive_insert_sql, home_dir, join_path, short_tag,
};

#[test]
fn home_falls_back_to_userprofile_then_dot() {
    assert_eq!(home_dir(Some("/h".to_string()), Some("/u".to_string())), "/h");
    assert_eq!(home_dir(None, Some("/u".to_string())), "/u");
    assert_eq!(home_dir(None, None), ".");
}

#[test]
fn config_paths_join_like_pathbuf() {
    assert_eq!(cortex_token_path("/home/a"), "/home/a/.config/cortex/token");
    assert_eq!(hive_db_path("/home/a/"), "/home/a/.config/cortex/hive.db");
    assert_eq!(cortex_token_path("."), "./.config/cortex/token");
    for (base, rel) in [("/x", "y"), ("/x/", "y"), ("", "y"), (".", "a/b")] {
        let std = std::path::PathBuf::from(base).join(rel);
        assert_eq!(join_path(base, rel), std.to_str().unwrap());
    }
}

#[test]
fn cortex_request_parts() {
    assert_eq!(cortex_write_url(), "http://127.0.0.1:18080/api/cortex/write");
    assert_eq!(bearer_header("  tok123\n"), "Bearer tok123");
}

const RANDOM: [u8; 16] = [0x01, 0x23, 0xab, 0xcd, 0xff, 0xff, 0xff, 0xff, 0xff, 0, 0, 0, 0, 0, 0, 0];

#[test]
fn random_tag_is_the_uuid_prefix() {
    assert_eq!(short_tag(RANDOM), "0123abcd");
    let full = uuid::Builder::from_random_bytes(RANDOM).into_uuid().to_string();
    assert_eq!(full, "0123abcd-ffff-4fff-bf00-000000000000");
    assert_eq!(short_tag([0xde, 0xad, 0xbe, 0xef, 0, 0, 0, 0, 0, 0, 0, 0, 0, 0, 0, 0]), "deadbeef");
}

#[test]
fn incident_record_fields() {
    let report = assemble_report(
        "t".to_string(),
        vec![ServiceAuditResult {
            name: "A".to_string(),
            endpoint: "B".to_string(),
            reachable: false,
            status_code: None,
            latency_ms: 3,
        }],
        InvariantAuditResult {
            passed: true,
            plaintext_env_files_found: vec![],
            unredacted_secrets_found: 0,
            unslop_violations: vec![],
        },
        BuildAuditResult { passed: true, errors: vec![], warnings: vec![] },
    );
    let r = cortex_incident(RANDOM, "sum", &report);
    assert_eq!(r.space, "atlas-memory");
    assert_eq!(r.canonical_name, "incident-0123abcd");
    assert_eq!(r.entity_type, "bug_report");
    assert_eq!(
        r.content,
        format!("Incident detected by spark-debugger: sum\n        Report Details: {:?}", report)
    );
    assert!(r.content.contains("SystemAuditReport { timestamp: \"t\", services: [ServiceAuditResult { name: \"A\""));
    let body = cortex_payload_json(&r);
    let v: serde_json::Value = serde_json::from_str(&body).unwrap();
    assert_eq!(v.to_string(), body);
    assert_eq!(v["canonicalName"], "incident-0123abcd");
    assert_eq!(v["space"], "atlas-memory");
    assert_eq!(v["entityType"], "bug_report");
    assert_eq!(v["content"], r.content);
    let h = cortex_request_headers(" secret\n");
    assert_eq!(h.len(), 2);
    assert_eq!((h[0].name.as_str(), h[0].value.as_str()), ("Authorization", "Bearer secret"));
    assert_eq!((h[1].name.as_str(), h[1].value.as_str()), ("content-type", "application/json"));
}

#[test]
fn alert_comb_fields() {
    let c = alert_comb_with(RANDOM, "2026-01-01T00:00:00+00:00".to_string(), "down");
    assert_eq!(c.id, "comb-alert-0123abcd");
    assert_eq!(c.author, "spark-debugger");
    assert_eq!(c.role, "watchdog");
    assert_eq!(c.content, "\u{1F6A8} AUDIT ALERT: down");
    assert_eq!(c.intent, "branch");
    assert_eq!(c.created_at, "2026-01-01T00:00:00+00:00");
    let c = alert_comb(RANDOM, "x").unwrap();
    assert_eq!(c.id, "comb-alert-0123abcd");
    assert!(c.created_at.ends_with("+00:00"));
    assert!(hive_insert_sql().starts_with("INSERT INTO hive_combs (id, q, r, author"));
    assert!(hive_insert_sql().ends_with("VALUES (?1, -2, 2, ?2, ?3, ?4, ?5, ?6)"));
}
