//! The command line's decisions: which mode runs, and the text of the
//! one-shot diagnostic report.

use vstd::prelude::*;
use crate::text::{views, decimal, decimal_string, pad_right, padded, repeat, repeated};
use crate::audit::{SystemAuditReport, ServiceAuditResult, report_consistent, all_reachable};

verus! {

/// The subcommands.
#[derive(Debug, Clone, Copy, PartialEq, Eq)]
pub enum CliCommand {
    Check,
    Daemon,
    Mcp,
}

/// What the program runs.
#[derive(Debug, Clone, Copy, PartialEq, Eq)]
pub enum RunMode {
    /// The MCP server on stdio.
    Mcp,
    /// The watchdog daemon.
    Daemon,
    /// One audit, printed as a report.
    Check,
}

/// The mode for the `--mcp` and `--daemon` flags and the subcommand: the MCP
/// server wins, then the daemon; a one-shot check otherwise.
pub open spec fn mode_spec(mcp: bool, daemon: bool, command: Option<CliCommand>) -> RunMode {
    if mcp || command == Some(CliCommand::Mcp) {
        RunMode::Mcp
    } else if daemon || command == Some(CliCommand::Daemon) {
        RunMode::Daemon
    } else {
        RunMode::Check
    }
}

/// Chooses the mode (`mode_spec`).
pub fn select_mode(mcp: bool, daemon: bool, command: Option<CliCommand>) -> (r: RunMode)
    ensures
        r == mode_spec(mcp, daemon, command),
        mcp || command == Some(CliCommand::Mcp) ==> r == RunMode::Mcp,
{
    proof {
        lemma_mode_precedence();
    }
    let wants_mcp = match command {
        Some(CliCommand::Mcp) => true,
        _ => false,
    };
    let wants_daemon = match command {
        Some(CliCommand::Daemon) => true,
        _ => false,
    };
    if mcp || wants_mcp {
        RunMode::Mcp
    } else if daemon || wants_daemon {
        RunMode::Daemon
    } else {
        RunMode::Check
    }
}

/// A row of the service table: four left-aligned columns of 22, 38, 10 and
/// 10 characters, separated by one space.
pub open spec fn table_row(a: Seq<char>, b: Seq<char>, c: Seq<char>, d: Seq<char>) -> Seq<char> {
    pad_right(a, 22) + " "@ + pad_right(b, 38) + " "@ + pad_right(c, 10) + " "@ + pad_right(d, 10)
}

/// The status cell of a service: `ONLINE` or `OFFLINE`, then the HTTP status
/// in parentheses, `-` when none came.
pub open spec fn status_cell(s: ServiceAuditResult) -> Seq<char> {
    (if s.reachable { "ONLINE"@ } else { "OFFLINE"@ }) + " ("@ + match s.status_code {
        Some(c) => decimal(c as nat),
        None => "-"@,
    } + ")"@
}

/// The latency cell of a service.
pub open spec fn latency_cell(s: ServiceAuditResult) -> Seq<char> {
    decimal(s.latency_ms as nat) + "ms"@
}

/// The table row of a service.
pub open spec fn service_row(s: ServiceAuditResult) -> Seq<char> {
    table_row(s.name@, s.endpoint@, status_cell(s), latency_cell(s))
}

/// The ruler above and below the table.
pub open spec fn ruler() -> Seq<char> {
    repeat('-', 82)
}

/// `PASSED` or `FAILED`.
pub open spec fn verdict(ok: bool) -> Seq<char> {
    if ok { "PASSED"@ } else { "FAILED"@ }
}

/// Each item after the given prefix.
pub open spec fn prefixed(prefix: Seq<char>, items: Seq<Seq<char>>) -> Seq<Seq<char>> {
    items.map_values(|s: Seq<char>| prefix + s)
}

/// The lines printed before the audit runs.
pub open spec fn banner_lines() -> Seq<Seq<char>> {
    seq![Seq::empty(), "=== SparkOS Sovereign Watchdog: System Diagnostic Audit ==="@]
}

/// The lines of the one-shot report, in printing order.
pub open spec fn report_lines(r: SystemAuditReport) -> Seq<Seq<char>> {
    seq![table_row("SERVICE"@, "ENDPOINT"@, "STATUS"@, "LATENCY"@), ruler()]
        + r.services@.map_values(|s: ServiceAuditResult| service_row(s))
        + seq![
        ruler(),
        Seq::empty(),
        "--- Invariant Checks ---"@,
        "TPM Vault Clean (Zero .env files): "@ + verdict(
            r.invariants.plaintext_env_files_found@.len() == 0,
        ),
    ] + prefixed("  Leaked file: "@, views(r.invariants.plaintext_env_files_found@)) + seq![
        "Unslop Standard (Zero em/en dashes): "@ + verdict(r.invariants.unslop_violations@.len() == 0),
        Seq::empty(),
        "--- Workspace Compile Check ---"@,
        "Cargo Check: "@ + verdict(r.build.passed),
    ] + prefixed("  "@, views(r.build.errors@)) + seq![
        Seq::empty(),
        "Overall Diagnostic Status: "@ + if r.overall_healthy {
            "ALL SYSTEMS GREEN"@
        } else {
            "ATTENTION REQUIRED"@
        },
        Seq::empty(),
    ]
}

/// The lines printed before the audit runs (`banner_lines`).
pub fn check_banner() -> (r: Vec<String>)
    ensures
        views(r@) == banner_lines(),
{
    let mut r: Vec<String> = Vec::new();
    r.push(String::new());
    r.push(String::from_str("=== SparkOS Sovereign Watchdog: System Diagnostic Audit ==="));
    assert(views(r@) =~= banner_lines());
    r
}

fn row(a: &str, b: &str, c: &str, d: &str) -> (r: String)
    ensures
        r@ == table_row(a@, b@, c@, d@),
{
    let pa = padded(a, 22);
    let pb = padded(b, 38);
    let pc = padded(c, 10);
    let pd = padded(d, 10);
    pa.concat(" ").concat(pb.as_str()).concat(" ").concat(pc.as_str()).concat(" ").concat(
        pd.as_str(),
    )
}

/// The table row of a service (`service_row`).
pub fn render_service_row(s: &ServiceAuditResult) -> (r: String)
    ensures
        r@ == service_row(*s),
{
    let state = if s.reachable {
        String::from_str("ONLINE")
    } else {
        String::from_str("OFFLINE")
    };
    let code = match s.status_code {
        Some(c) => decimal_string(c as u64),
        None => String::from_str("-"),
    };
    let status = state.concat(" (").concat(code.as_str()).concat(")");
    let latency = decimal_string(s.latency_ms).concat("ms");
    row(s.name.as_str(), s.endpoint.as_str(), status.as_str(), latency.as_str())
}

fn push_line(out: &mut Vec<String>, line: String)
    ensures
        views(final(out)@) == views(old(out)@).push(line@),
{
    let ghost prev = out@;
    out.push(line);
    assert(views(out@) =~= views(prev).push(line@));
}

fn push_prefixed(out: &mut Vec<String>, prefix: &str, items: &Vec<String>)
    ensures
        views(final(out)@) == views(old(out)@) + prefixed(prefix@, views(items@)),
{
    let ghost start = views(out@);
    let mut i: usize = 0;
    while i < items.len()
        invariant
            i <= items.len(),
            views(out@).len() == start.len() + i,
            forall|k: int| 0 <= k < start.len() ==> #[trigger] views(out@)[k] == start[k],
            forall|k: int|
                0 <= k < i ==> #[trigger] views(out@)[start.len() + k] == prefix@ + items@[k]@,
        decreases items.len() - i,
    {
        let line = String::from_str(prefix).concat(items[i].as_str());
        push_line(out, line);
        i = i + 1;
    }
    let ghost want = start + prefixed(prefix@, views(items@));
    assert forall|j: int| 0 <= j < want.len() implies views(out@)[j] == want[j] by {
        if j >= start.len() {
            let k = j - start.len();
            assert(views(out@)[start.len() + k] == prefix@ + items@[k]@);
        }
    }
    assert(views(out@) =~= want);
}

/// The lines of the one-shot report (`report_lines`).
pub fn render_check_report(r: &SystemAuditReport) -> (out: Vec<String>)
    ensures
        views(out@) == report_lines(*r),
        out@.len() >= 2,
        out@.last()@ == Seq::<char>::empty(),
        out@[out@.len() - 2]@ == "Overall Diagnostic Status: "@ + if r.overall_healthy {
            "ALL SYSTEMS GREEN"@
        } else {
            "ATTENTION REQUIRED"@
        },
{
    proof {
        lemma_report_ends_with_overall_status(*r);
    }
    let mut out: Vec<String> = Vec::new();
    push_line(&mut out, row("SERVICE", "ENDPOINT", "STATUS", "LATENCY"));
    push_line(&mut out, repeated('-', 82));
    let ghost head = views(out@);
    assert(head =~= seq![table_row("SERVICE"@, "ENDPOINT"@, "STATUS"@, "LATENCY"@), ruler()]);
    let services = &r.services;
    let mut i: usize = 0;
    while i < services.len()
        invariant
            i <= services.len(),
            head.len() == 2,
            views(out@).len() == 2 + i,
            forall|k: int| 0 <= k < 2 ==> #[trigger] views(out@)[k] == head[k],
            forall|k: int|
                0 <= k < i ==> #[trigger] views(out@)[2 + k] == service_row(services@[k]),
        decreases services.len() - i,
    {
        let line = render_service_row(&services[i]);
        push_line(&mut out, line);
        i = i + 1;
    }
    let ghost acc1 = head + services@.map_values(|s: ServiceAuditResult| service_row(s));
    assert forall|j: int| 0 <= j < acc1.len() implies views(out@)[j] == acc1[j] by {
        if j >= 2 {
            let k = j - 2;
            assert(views(out@)[2 + k] == service_row(services@[k]));
        }
    }
    assert(views(out@) =~= acc1);
    push_line(&mut out, repeated('-', 82));
    push_line(&mut out, String::new());
    push_line(&mut out, String::from_str("--- Invariant Checks ---"));
    let vault = if r.invariants.plaintext_env_files_found.len() == 0 {
        String::from_str("PASSED")
    } else {
        String::from_str("FAILED")
    };
    push_line(&mut out, String::from_str("TPM Vault Clean (Zero .env files): ").concat(vault.as_str()));
    let ghost acc2 = acc1 + seq![
        ruler(),
        Seq::empty(),
        "--- Invariant Checks ---"@,
        "TPM Vault Clean (Zero .env files): "@ + verdict(
            r.invariants.plaintext_env_files_found@.len() == 0,
        ),
    ];
    assert(views(out@) =~= acc2);
    push_prefixed(&mut out, "  Leaked file: ", &r.invariants.plaintext_env_files_found);
    let ghost acc3 = acc2 + prefixed("  Leaked file: "@, views(r.invariants.plaintext_env_files_found@));
    let unslop = if r.invariants.unslop_violations.len() == 0 {
        String::from_str("PASSED")
    } else {
        String::from_str("FAILED")
    };
    push_line(&mut out, String::from_str("Unslop Standard (Zero em/en dashes): ").concat(unslop.as_str()));
    push_line(&mut out, String::new());
    push_line(&mut out, String::from_str("--- Workspace Compile Check ---"));
    let cargo = if r.build.passed {
        String::from_str("PASSED")
    } else {
        String::from_str("FAILED")
    };
    push_line(&mut out, String::from_str("Cargo Check: ").concat(cargo.as_str()));
    let ghost acc4 = acc3 + seq![
        "Unslop Standard (Zero em/en dashes): "@ + verdict(r.invariants.unslop_violations@.len() == 0),
        Seq::empty(),
        "--- Workspace Compile Check ---"@,
        "Cargo Check: "@ + verdict(r.build.passed),
    ];
    assert(views(out@) =~= acc4);
    push_prefixed(&mut out, "  ", &r.build.errors);
    let ghost acc5 = acc4 + prefixed("  "@, views(r.build.errors@));
    push_line(&mut out, String::new());
    let overall = if r.overall_healthy {
        String::from_str("ALL SYSTEMS GREEN")
    } else {
        String::from_str("ATTENTION REQUIRED")
    };
    push_line(&mut out, String::from_str("Overall Diagnostic Status: ").concat(overall.as_str()));
    push_line(&mut out, String::new());
    let ghost acc6 = acc5 + seq![
        Seq::empty(),
        "Overall Diagnostic Status: "@ + if r.overall_healthy {
            "ALL SYSTEMS GREEN"@
        } else {
            "ATTENTION REQUIRED"@
        },
        Seq::empty(),
    ];
    assert(views(out@) =~= acc6);
    assert(acc6 == report_lines(*r));
    out
}

} // verus!

verus! {

/// The MCP server wins over everything: with `--mcp`, or with the `mcp`
/// subcommand, the mode is MCP whatever the other flag and subcommand are.
/// Otherwise `--daemon` or the `daemon` subcommand runs the daemon, and with
/// neither a one-shot check runs.
pub proof fn lemma_mode_precedence()
    ensures
        forall|daemon: bool, command: Option<CliCommand>|
            #[trigger] mode_spec(true, daemon, command) == RunMode::Mcp,
        forall|mcp: bool, daemon: bool|
            #[trigger] mode_spec(mcp, daemon, Some(CliCommand::Mcp)) == RunMode::Mcp,
        forall|command: Option<CliCommand>|
            command != Some(CliCommand::Mcp) ==> #[trigger] mode_spec(false, true, command)
                == RunMode::Daemon,
        forall|daemon: bool|
            #[trigger] mode_spec(false, daemon, Some(CliCommand::Daemon)) == RunMode::Daemon,
        mode_spec(false, false, None) == RunMode::Check,
        mode_spec(false, false, Some(CliCommand::Check)) == RunMode::Check,
{
}

/// The one-shot report ends with the overall status line and an empty line:
/// `ALL SYSTEMS GREEN` exactly when the report is healthy, `ATTENTION
/// REQUIRED` otherwise. For a report whose verdict agrees with its parts, an
/// unreachable service, failed invariants or a failed build never print
/// green.
pub proof fn lemma_report_ends_with_overall_status(r: SystemAuditReport)
    ensures
        report_lines(r).len() >= 3,
        report_lines(r).last() == Seq::<char>::empty(),
        report_lines(r)[report_lines(r).len() - 2] == "Overall Diagnostic Status: "@ + if r.overall_healthy {
            "ALL SYSTEMS GREEN"@
        } else {
            "ATTENTION REQUIRED"@
        },
        report_consistent(r) && !(all_reachable(r.services@) && r.invariants.passed
            && r.build.passed) ==> report_lines(r)[report_lines(r).len() - 2]
            == "Overall Diagnostic Status: ATTENTION REQUIRED"@,
{
    reveal_strlit("Overall Diagnostic Status: ");
    reveal_strlit("ATTENTION REQUIRED");
    reveal_strlit("Overall Diagnostic Status: ATTENTION REQUIRED");
    assert("Overall Diagnostic Status: "@ + "ATTENTION REQUIRED"@
        =~= "Overall Diagnostic Status: ATTENTION REQUIRED"@);
}

/// Where each part of the one-shot report stands: the header row, one row
/// per service in the order probed (its name, endpoint, `ONLINE` or
/// `OFFLINE` with the HTTP status, and the latency), the vault verdict
/// (`PASSED` exactly when no plaintext `.env` file was found) followed by one
/// line per leaked file, the unslop verdict, the cargo verdict (`PASSED`
/// exactly when the build passed) followed by one line per build error.
pub proof fn lemma_report_layout(r: SystemAuditReport)
    ensures
        ({
            let ls = report_lines(r);
            let n: int = r.services@.len() as int;
            let m: int = r.invariants.plaintext_env_files_found@.len() as int;
            let e: int = r.build.errors@.len() as int;
            &&& ls.len() == n + m + e + 13
            &&& ls[0] == table_row("SERVICE"@, "ENDPOINT"@, "STATUS"@, "LATENCY"@)
            &&& forall|i: int|
                0 <= i < n ==> #[trigger] ls[2 + i] == table_row(
                    r.services@[i].name@,
                    r.services@[i].endpoint@,
                    (if r.services@[i].reachable { "ONLINE"@ } else { "OFFLINE"@ }) + " ("@
                        + match r.services@[i].status_code {
                        Some(c) => decimal(c as nat),
                        None => "-"@,
                    } + ")"@,
                    decimal(r.services@[i].latency_ms as nat) + "ms"@,
                )
            &&& ls[n + 5] == "TPM Vault Clean (Zero .env files): "@ + if m == 0 {
                "PASSED"@
            } else {
                "FAILED"@
            }
            &&& forall|k: int|
                0 <= k < m ==> #[trigger] ls[n + 6 + k] == "  Leaked file: "@
                    + r.invariants.plaintext_env_files_found@[k]@
            &&& ls[n + m + 6] == "Unslop Standard (Zero em/en dashes): "@ + if r.invariants.unslop_violations@.len() == 0 {
                "PASSED"@
            } else {
                "FAILED"@
            }
            &&& ls[n + m + 9] == "Cargo Check: "@ + if r.build.passed {
                "PASSED"@
            } else {
                "FAILED"@
            }
            &&& forall|k: int|
                0 <= k < e ==> #[trigger] ls[n + m + 10 + k] == "  "@ + r.build.errors@[k]@
        }),
{
    let ls = report_lines(r);
    let n: int = r.services@.len() as int;
    let m: int = r.invariants.plaintext_env_files_found@.len() as int;
    let e: int = r.build.errors@.len() as int;
    let rows = r.services@.map_values(|s: ServiceAuditResult| service_row(s));
    let leaked = prefixed("  Leaked file: "@, views(r.invariants.plaintext_env_files_found@));
    let errs = prefixed("  "@, views(r.build.errors@));
    let a = seq![table_row("SERVICE"@, "ENDPOINT"@, "STATUS"@, "LATENCY"@), ruler()] + rows;
    let b = a + seq![
        ruler(),
        Seq::empty(),
        "--- Invariant Checks ---"@,
        "TPM Vault Clean (Zero .env files): "@ + verdict(m == 0),
    ];
    let c = b + leaked;
    let d = c + seq![
        "Unslop Standard (Zero em/en dashes): "@ + verdict(r.invariants.unslop_violations@.len() == 0),
        Seq::empty(),
        "--- Workspace Compile Check ---"@,
        "Cargo Check: "@ + verdict(r.build.passed),
    ];
    let f = d + errs;
    assert(ls == f + seq![
        Seq::empty(),
        "Overall Diagnostic Status: "@ + if r.overall_healthy {
            "ALL SYSTEMS GREEN"@
        } else {
            "ATTENTION REQUIRED"@
        },
        Seq::empty(),
    ]);
    assert forall|i: int| 0 <= i < n implies #[trigger] ls[2 + i] == service_row(r.services@[i]) by {
        assert(ls[2 + i] == a[2 + i]);
    }
    assert(ls[n + 5] == b[n + 5]);
    assert forall|k: int| 0 <= k < m implies #[trigger] ls[n + 6 + k] == "  Leaked file: "@
        + r.invariants.plaintext_env_files_found@[k]@ by {
        assert(ls[n + 6 + k] == c[n + 6 + k]);
        assert(c[n + 6 + k] == leaked[k]);
    }
    assert(ls[n + m + 6] == d[n + m + 6]);
    assert(ls[n + m + 9] == d[n + m + 9]);
    assert forall|k: int| 0 <= k < e implies #[trigger] ls[n + m + 10 + k] == "  "@
        + r.build.errors@[k]@ by {
        assert(ls[n + m + 10 + k] == f[n + m + 10 + k]);
        assert(f[n + m + 10 + k] == errs[k]);
    }
}

} // verus!
