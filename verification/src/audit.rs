//! The audit verdicts: which services count as reachable, which files break
//! the vault invariant, how compiler output is sorted into errors and
//! warnings, and when the whole system counts as healthy.

use vstd::prelude::*;
use crate::text::{is_suffix, is_prefix, contains_seq, views, starts_with, contains, lines_of, split_lines};
use crate::text::chars_of;
use crate::outside::{
    decode_lossy, utf8_lossy_text, read_clock, format_rfc3339, rfc3339_text,
    rfc3339_shape, ClockReading, in_chrono_range, in_four_digit_years,
};

verus! {

/// One probed service.
#[derive(Debug, Clone)]
pub struct ServiceAuditResult {
    pub name: String,
    pub endpoint: String,
    pub reachable: bool,
    pub status_code: Option<u16>,
    pub latency_ms: u64,
}

/// The vault and writing-standard invariants of the workspaces.
#[derive(Debug, Clone)]
pub struct InvariantAuditResult {
    pub passed: bool,
    pub plaintext_env_files_found: Vec<String>,
    pub unredacted_secrets_found: usize,
    pub unslop_violations: Vec<String>,
}

/// The outcome of compiling the workspace.
#[derive(Debug, Clone)]
pub struct BuildAuditResult {
    pub passed: bool,
    pub errors: Vec<String>,
    pub warnings: Vec<String>,
}

/// A full audit of services, invariants and build.
#[derive(Debug, Clone)]
pub struct SystemAuditReport {
    pub timestamp: String,
    pub services: Vec<ServiceAuditResult>,
    pub invariants: InvariantAuditResult,
    pub build: BuildAuditResult,
    pub overall_healthy: bool,
}

/// A service to probe: its display name and its health URL.
#[derive(Debug, Clone)]
pub struct ServiceEndpoint {
    pub name: String,
    pub endpoint: String,
}

/// What probing one endpoint gave: the HTTP status, if a response came, and
/// the milliseconds the attempt took.
#[derive(Debug, Clone, Copy)]
pub struct ProbeOutcome {
    pub status: Option<u16>,
    pub latency_ms: u64,
}

/// One entry of a scanned directory: its file name and its full path.
#[derive(Debug, Clone)]
pub struct DirEntryName {
    pub file_name: String,
    pub path: String,
}

/// What running `cargo check --workspace` gave: the exit verdict and the raw
/// standard error, or the reason the command could not be started.
#[derive(Debug, Clone)]
pub enum CargoRun {
    Finished { success: bool, stderr: Vec<u8> },
    LaunchFailed { reason: String },
}

/// The audited services, in probing order.
pub open spec fn service_table() -> Seq<(Seq<char>, Seq<char>)> {
    seq![
        ("Cortex Memory"@, "http://127.0.0.1:18080/health"@),
        ("Sovereign Cockpit"@, "http://127.0.0.1:18095/api/pulse"@),
        ("Cortex ONNX Encoder"@, "http://127.0.0.1:18081/health"@),
        ("Modular MAX LLM"@, "http://127.0.0.1:18006/v1/models"@),
        ("Matrix Conduit"@, "http://127.0.0.1:6167"@),
    ]
}

/// The number of audited services.
pub const SERVICE_COUNT: usize = 5;

fn endpoint(name: &str, url: &str) -> (r: ServiceEndpoint)
    ensures
        r.name@ == name@,
        r.endpoint@ == url@,
{
    ServiceEndpoint { name: String::from_str(name), endpoint: String::from_str(url) }
}

/// The services that an audit probes, in order (`service_table`).
pub fn service_endpoints() -> (r: Vec<ServiceEndpoint>)
    ensures
        r@.len() == SERVICE_COUNT,
        forall|i: int|
            0 <= i < SERVICE_COUNT ==> (#[trigger] r@[i]).name@ == service_table()[i].0
                && r@[i].endpoint@ == service_table()[i].1,
{
    let mut r: Vec<ServiceEndpoint> = Vec::new();
    r.push(endpoint("Cortex Memory", "http://127.0.0.1:18080/health"));
    r.push(endpoint("Sovereign Cockpit", "http://127.0.0.1:18095/api/pulse"));
    r.push(endpoint("Cortex ONNX Encoder", "http://127.0.0.1:18081/health"));
    r.push(endpoint("Modular MAX LLM", "http://127.0.0.1:18006/v1/models"));
    r.push(endpoint("Matrix Conduit", "http://127.0.0.1:6167"));
    r
}

/// A service counts as reachable when it answered with a status below 500.
pub open spec fn probe_reachable(status: Option<u16>) -> bool {
    status matches Some(code) && code < 500
}

/// The audit record of a service `name` at `url` from what probing it gave.
pub open spec fn service_verdict(
    r: ServiceAuditResult,
    name: Seq<char>,
    url: Seq<char>,
    probe: ProbeOutcome,
) -> bool {
    &&& r.name@ == name
    &&& r.endpoint@ == url
    &&& r.reachable == probe_reachable(probe.status)
    &&& r.status_code == probe.status
    &&& r.latency_ms == probe.latency_ms
}

/// The audit record of one probed service.
pub fn service_result(ep: &ServiceEndpoint, probe: &ProbeOutcome) -> (r: ServiceAuditResult)
    ensures
        service_verdict(r, ep.name@, ep.endpoint@, *probe),
{
    let reachable = match probe.status {
        Some(code) => code < 500,
        None => false,
    };
    ServiceAuditResult {
        name: ep.name.clone(),
        endpoint: ep.endpoint.clone(),
        reachable,
        status_code: probe.status,
        latency_ms: probe.latency_ms,
    }
}

/// The audit records of all services, from the probe outcomes given in the
/// order of `service_endpoints`.
pub fn audit_services(probes: &Vec<ProbeOutcome>) -> (r: Vec<ServiceAuditResult>)
    requires
        probes@.len() == SERVICE_COUNT,
    ensures
        r@.len() == SERVICE_COUNT,
        forall|i: int|
            0 <= i < SERVICE_COUNT ==> service_verdict(
                #[trigger] r@[i],
                service_table()[i].0,
                service_table()[i].1,
                probes@[i],
            ),
{
    let eps = service_endpoints();
    let mut r: Vec<ServiceAuditResult> = Vec::new();
    let mut i: usize = 0;
    while i < SERVICE_COUNT
        invariant
            i <= SERVICE_COUNT,
            probes@.len() == SERVICE_COUNT,
            eps@.len() == SERVICE_COUNT,
            forall|k: int|
                0 <= k < SERVICE_COUNT ==> (#[trigger] eps@[k]).name@ == service_table()[k].0
                    && eps@[k].endpoint@ == service_table()[k].1,
            r@.len() == i,
            forall|k: int|
                0 <= k < i ==> service_verdict(
                    #[trigger] r@[k],
                    service_table()[k].0,
                    service_table()[k].1,
                    probes@[k],
                ),
        decreases SERVICE_COUNT - i,
    {
        let res = service_result(&eps[i], &probes[i]);
        r.push(res);
        i = i + 1;
    }
    r
}

/// The paths of the entries, in order, whose file name starts with `.env`.
pub open spec fn env_paths(entries: Seq<DirEntryName>) -> Seq<Seq<char>>
    decreases entries.len(),
{
    if entries.len() == 0 {
        Seq::empty()
    } else {
        let found = env_paths(entries.drop_last());
        if is_prefix(".env"@, entries.last().file_name@) {
            found.push(entries.last().path@)
        } else {
            found
        }
    }
}

/// `env_paths` over several scanned directories, directory by directory.
pub open spec fn env_paths_all(dirs: Seq<Vec<DirEntryName>>) -> Seq<Seq<char>>
    decreases dirs.len(),
{
    if dirs.len() == 0 {
        Seq::empty()
    } else {
        env_paths_all(dirs.drop_last()) + env_paths(dirs.last()@)
    }
}

/// The vault invariant over the entries of the scanned workspace directories
/// (a directory that is missing or cannot be read is given with no entries):
/// every entry whose name starts with `.env` is a plaintext secret file, and
/// the invariants pass exactly when there is none.
pub fn audit_vault_and_unslop(dirs: &Vec<Vec<DirEntryName>>) -> (r: InvariantAuditResult)
    ensures
        views(r.plaintext_env_files_found@) == env_paths_all(dirs@),
        r.passed == (env_paths_all(dirs@).len() == 0),
        r.unredacted_secrets_found == 0,
        r.unslop_violations@.len() == 0,
{
    let env_prefix = chars_of(".env");
    let mut found: Vec<String> = Vec::new();
    let mut d: usize = 0;
    while d < dirs.len()
        invariant
            d <= dirs.len(),
            env_prefix@ == ".env"@,
            views(found@) == env_paths_all(dirs@.subrange(0, d as int)),
        decreases dirs.len() - d,
    {
        let entries = &dirs[d];
        let ghost before = found@;
        let mut k: usize = 0;
        while k < entries.len()
            invariant
                k <= entries.len(),
                env_prefix@ == ".env"@,
                views(found@) == views(before) + env_paths(entries@.subrange(0, k as int)),
            decreases entries.len() - k,
        {
            assert(entries@.subrange(0, k + 1).drop_last() =~= entries@.subrange(0, k as int));
            let name = chars_of(entries[k].file_name.as_str());
            if starts_with(&name, &env_prefix) {
                let ghost prev = found@;
                found.push(entries[k].path.clone());
                assert(views(found@) =~= views(prev).push(entries@[k as int].path@));
            }
            k = k + 1;
        }
        assert(entries@.subrange(0, entries.len() as int) =~= entries@);
        assert(dirs@.subrange(0, d + 1).drop_last() =~= dirs@.subrange(0, d as int));
        d = d + 1;
    }
    assert(dirs@.subrange(0, dirs.len() as int) =~= dirs@);
    let passed = found.len() == 0;
    InvariantAuditResult {
        passed,
        plaintext_env_files_found: found,
        unredacted_secrets_found: 0,
        unslop_violations: Vec::new(),
    }
}

} // verus!

verus! {

/// A compiler output line that reports an error.
pub open spec fn is_error_line(l: Seq<char>) -> bool {
    is_prefix("error"@, l)
}

/// A compiler output line kept as a warning: it starts with `warning` and is
/// not the notice about profiles of non-root workspace members.
pub open spec fn is_warning_line(l: Seq<char>) -> bool {
    is_prefix("warning"@, l) && !contains_seq(l, "profiles for the non root"@)
}

/// The error lines among `ls`, in order.
pub open spec fn error_lines(ls: Seq<Seq<char>>) -> Seq<Seq<char>>
    decreases ls.len(),
{
    if ls.len() == 0 {
        Seq::empty()
    } else if is_error_line(ls.last()) {
        error_lines(ls.drop_last()).push(ls.last())
    } else {
        error_lines(ls.drop_last())
    }
}

/// The warning lines among `ls` that are not error lines, in order.
pub open spec fn warning_lines(ls: Seq<Seq<char>>) -> Seq<Seq<char>>
    decreases ls.len(),
{
    if ls.len() == 0 {
        Seq::empty()
    } else if !is_error_line(ls.last()) && is_warning_line(ls.last()) {
        warning_lines(ls.drop_last()).push(ls.last())
    } else {
        warning_lines(ls.drop_last())
    }
}

/// The build verdict from the exit verdict of `cargo check` and the text of
/// its standard error: errors and warnings are the matching lines, in order.
pub fn build_result_from_output(success: bool, stderr_text: &String) -> (r: BuildAuditResult)
    ensures
        r.passed == success,
        views(r.errors@) == error_lines(lines_of(stderr_text@)),
        views(r.warnings@) == warning_lines(lines_of(stderr_text@)),
{
    let text = chars_of(stderr_text.as_str());
    let lines = split_lines(&text);
    let error_prefix = chars_of("error");
    let warning_prefix = chars_of("warning");
    let profiles_notice = chars_of("profiles for the non root");
    let ghost ls = lines_of(text@);
    let mut errors: Vec<String> = Vec::new();
    let mut warnings: Vec<String> = Vec::new();
    let mut i: usize = 0;
    while i < lines.len()
        invariant
            i <= lines.len(),
            views(lines@) == ls,
            error_prefix@ == "error"@,
            warning_prefix@ == "warning"@,
            profiles_notice@ == "profiles for the non root"@,
            views(errors@) == error_lines(ls.subrange(0, i as int)),
            views(warnings@) == warning_lines(ls.subrange(0, i as int)),
        decreases lines.len() - i,
    {
        assert(ls.subrange(0, i + 1).drop_last() =~= ls.subrange(0, i as int));
        assert(ls.subrange(0, i + 1).last() == lines@[i as int]@);
        let line = chars_of(lines[i].as_str());
        let ghost pe = errors@;
        let ghost pw = warnings@;
        if starts_with(&line, &error_prefix) {
            errors.push(lines[i].clone());
            assert(views(errors@) =~= views(pe).push(lines@[i as int]@));
        } else if starts_with(&line, &warning_prefix) && !contains(&line, &profiles_notice) {
            warnings.push(lines[i].clone());
            assert(views(warnings@) =~= views(pw).push(lines@[i as int]@));
        }
        i = i + 1;
    }
    assert(ls.subrange(0, lines.len() as int) =~= ls);
    BuildAuditResult { passed: success, errors, warnings }
}

/// The message recorded when `cargo check` could not be started.
pub open spec fn launch_failure_message(reason: Seq<char>) -> Seq<char> {
    "Failed to run cargo check: "@ + reason
}

/// The build verdict from running `cargo check --workspace`: a finished run
/// passes exactly when the command succeeded, with the lines of its standard
/// error (decoded as UTF-8, invalid sequences replaced) sorted into errors
/// and warnings; a run that could not start fails with one error naming why.
pub fn audit_workspace_build(run: &CargoRun) -> (r: BuildAuditResult)
    ensures
        match run {
            CargoRun::Finished { success, stderr } => {
                &&& r.passed == *success
                &&& views(r.errors@) == error_lines(lines_of(utf8_lossy_text(stderr@)))
                &&& views(r.warnings@) == warning_lines(lines_of(utf8_lossy_text(stderr@)))
            },
            CargoRun::LaunchFailed { reason } => {
                &&& !r.passed
                &&& views(r.errors@) == seq![launch_failure_message(reason@)]
                &&& r.warnings@.len() == 0
            },
        },
{
    match run {
        CargoRun::Finished { success, stderr } => {
            let text = decode_lossy(stderr);
            build_result_from_output(*success, &text)
        },
        CargoRun::LaunchFailed { reason } => {
            let msg = String::from_str("Failed to run cargo check: ").concat(reason.as_str());
            let mut errors: Vec<String> = Vec::new();
            errors.push(msg);
            assert(views(errors@) =~= seq![launch_failure_message(reason@)]);
            BuildAuditResult { passed: false, errors, warnings: Vec::new() }
        },
    }
}

/// Every service answered below 500.
pub open spec fn all_reachable(services: Seq<ServiceAuditResult>) -> bool {
    forall|i: int| 0 <= i < services.len() ==> (#[trigger] services[i]).reachable
}

/// The report's overall verdict agrees with its parts.
pub open spec fn report_consistent(r: SystemAuditReport) -> bool {
    r.overall_healthy == (all_reachable(r.services@) && r.invariants.passed && r.build.passed)
}

/// Exec test of `all_reachable`.
pub fn services_ok(services: &Vec<ServiceAuditResult>) -> (r: bool)
    ensures
        r == all_reachable(services@),
{
    let mut i: usize = 0;
    while i < services.len()
        invariant
            i <= services.len(),
            forall|k: int| 0 <= k < i ==> (#[trigger] services@[k]).reachable,
        decreases services.len() - i,
    {
        if !services[i].reachable {
            return false;
        }
        i = i + 1;
    }
    true
}

/// Puts a report together under the given timestamp: the system is healthy
/// exactly when every service is reachable and both the invariants and the
/// build passed.
pub fn assemble_report(
    timestamp: String,
    services: Vec<ServiceAuditResult>,
    invariants: InvariantAuditResult,
    build: BuildAuditResult,
) -> (r: SystemAuditReport)
    ensures
        r.timestamp == timestamp,
        r.services == services,
        r.invariants == invariants,
        r.build == build,
        r.overall_healthy == (all_reachable(services@) && invariants.passed && build.passed),
        report_consistent(r),
{
    let ok = services_ok(&services);
    let overall_healthy = ok && invariants.passed && build.passed;
    SystemAuditReport { timestamp, services, invariants, build, overall_healthy }
}

/// The seconds and nanoseconds after the Unix epoch of a clock reading, as
/// chrono counts a `SystemTime`: a reading `d` before the epoch is the
/// instant `-d`, with a fraction borrowed from the whole seconds.
pub open spec fn unix_instant(r: ClockReading) -> (int, int) {
    if !r.before_epoch {
        (r.secs as int, r.nanos as int)
    } else if r.nanos == 0 {
        (-(r.secs as int), 0)
    } else {
        (-(r.secs as int) - 1, 1_000_000_000 - r.nanos)
    }
}

/// The instant of a clock reading (`unix_instant`), when its seconds fit in
/// an `i64`.
pub fn unix_time(r: &ClockReading) -> (o: Option<(i64, u32)>)
    requires
        r.nanos < 1_000_000_000,
    ensures
        o is Some <==> r.secs <= i64::MAX,
        o matches Some(p) ==> (p.0 as int, p.1 as int) == unix_instant(*r) && p.1 < 1_000_000_000,
{
    if r.secs > 9223372036854775807u64 {
        return None;
    }
    let s = r.secs as i64;
    if !r.before_epoch {
        Some((s, r.nanos))
    } else if r.nanos == 0 {
        Some((-s, 0))
    } else {
        Some((-s - 1, 1_000_000_000 - r.nanos))
    }
}

/// The RFC 3339 timestamp of a clock reading: `None` exactly when chrono
/// cannot represent the instant, one outside years -262143 to 262142.
pub fn timestamp_of(reading: &ClockReading) -> (r: Option<String>)
    requires
        reading.nanos < 1_000_000_000,
    ensures
        r matches Some(t) ==> exists|secs: i64, nanos: u32|
            (secs as int, nanos as int) == unix_instant(*reading) && t@ == rfc3339_text(secs, nanos),
        r matches Some(t) ==> is_suffix("+00:00"@, t@),
        r is Some <==> in_chrono_range(unix_instant(*reading).0),
        r matches Some(t) ==> (in_four_digit_years(unix_instant(*reading).0) ==> rfc3339_shape(
            t@,
        )),
{
    match unix_time(reading) {
        None => None,
        Some((secs, nanos)) => {
            let t = format_rfc3339(secs, nanos);
            assert(t matches Some(tt) ==> (secs as int, nanos as int) == unix_instant(*reading)
                && tt@ == rfc3339_text(secs, nanos));
            t
        },
    }
}

/// The full audit report from the three partial audits, stamped with the
/// given clock reading: `None` exactly when chrono cannot represent that
/// instant.
pub fn run_full_audit_at(
    reading: &ClockReading,
    services: Vec<ServiceAuditResult>,
    invariants: InvariantAuditResult,
    build: BuildAuditResult,
) -> (r: Option<SystemAuditReport>)
    requires
        reading.nanos < 1_000_000_000,
    ensures
        r is Some <==> in_chrono_range(unix_instant(*reading).0),
        r matches Some(rep) ==> {
            &&& exists|secs: i64, nanos: u32|
                (secs as int, nanos as int) == unix_instant(*reading) && rep.timestamp@
                    == rfc3339_text(secs, nanos)
            &&& is_suffix("+00:00"@, rep.timestamp@)
            &&& in_four_digit_years(unix_instant(*reading).0) ==> rfc3339_shape(rep.timestamp@)
            &&& rep.services == services
            &&& rep.invariants == invariants
            &&& rep.build == build
            &&& rep.overall_healthy == (all_reachable(services@) && invariants.passed
                && build.passed)
            &&& report_consistent(rep)
        },
{
    match timestamp_of(reading) {
        Some(t) => Some(assemble_report(t, services, invariants, build)),
        None => None,
    }
}

/// The full audit report from the three partial audits, stamped with the
/// current UTC time in RFC 3339 form; `None` only when the system clock reads
/// an instant that chrono cannot represent (outside years -262143 to 262142).
pub fn run_full_audit(
    services: Vec<ServiceAuditResult>,
    invariants: InvariantAuditResult,
    build: BuildAuditResult,
) -> (r: Option<SystemAuditReport>)
    ensures
        r matches Some(rep) ==> {
            &&& exists|reading: ClockReading, secs: i64, nanos: u32|
                (secs as int, nanos as int) == unix_instant(reading) && rep.timestamp@
                    == rfc3339_text(secs, nanos)
            &&& is_suffix("+00:00"@, rep.timestamp@)
            &&& rep.services == services
            &&& rep.invariants == invariants
            &&& rep.build == build
            &&& rep.overall_healthy == (all_reachable(services@) && invariants.passed
                && build.passed)
            &&& report_consistent(rep)
        },
{
    let reading = read_clock();
    run_full_audit_at(&reading, services, invariants, build)
}

/// The directories whose vault invariant a full audit checks: the workspace
/// and the cockpit checkout.
pub fn full_audit_roots(workspace_dir: &str) -> (r: Vec<String>)
    ensures
        views(r@) == seq![workspace_dir@, "/home/drakestapleton/spark-cockpit-rs"@],
{
    let mut r: Vec<String> = Vec::new();
    r.push(String::from_str(workspace_dir));
    r.push(String::from_str("/home/drakestapleton/spark-cockpit-rs"));
    assert(views(r@) =~= seq![workspace_dir@, "/home/drakestapleton/spark-cockpit-rs"@]);
    r
}

} // verus!

verus! {

/// Sorting compiler output is a partition of part of its lines: every error
/// kept starts with `error`, every warning kept starts with `warning`, is not
/// the profiles notice and is not an error, no line is kept twice, and a line
/// that starts with `error` cannot start with `warning` as well.
pub proof fn lemma_build_lines_partition(ls: Seq<Seq<char>>)
    ensures
        forall|i: int|
            0 <= i < error_lines(ls).len() ==> is_error_line(#[trigger] error_lines(ls)[i]),
        forall|i: int|
            0 <= i < warning_lines(ls).len() ==> is_warning_line(#[trigger] warning_lines(ls)[i])
                && !is_error_line(warning_lines(ls)[i]),
        error_lines(ls).len() + warning_lines(ls).len() <= ls.len(),
        forall|l: Seq<char>| is_error_line(l) ==> !is_prefix("warning"@, l),
    decreases ls.len(),
{
    reveal_strlit("error");
    reveal_strlit("warning");
    assert forall|l: Seq<char>| is_error_line(l) implies !is_prefix("warning"@, l) by {
        assert(l.subrange(0, 5)[0] == "error"@[0]);
        if is_prefix("warning"@, l) {
            assert(l.subrange(0, 7)[0] == "warning"@[0]);
        }
    }
    if ls.len() > 0 {
        let prev = ls.drop_last();
        lemma_build_lines_partition(prev);
        let e = error_lines(ls);
        let w = warning_lines(ls);
        assert forall|i: int| 0 <= i < e.len() implies is_error_line(#[trigger] e[i]) by {
            if i < error_lines(prev).len() {
                assert(e[i] == error_lines(prev)[i]);
            }
        }
        assert forall|i: int| 0 <= i < w.len() implies is_warning_line(#[trigger] w[i])
            && !is_error_line(w[i]) by {
            if i < warning_lines(prev).len() {
                assert(w[i] == warning_lines(prev)[i]);
            }
        }
    }
}

/// A report the audit puts together is healthy only when every service
/// answered below 500, no plaintext `.env` file was found, and the workspace
/// compiled.
pub proof fn lemma_healthy_report_parts(r: SystemAuditReport, i: int)
    requires
        report_consistent(r),
        r.overall_healthy,
        0 <= i < r.services@.len(),
    ensures
        r.services@[i].reachable,
        r.invariants.passed,
        r.build.passed,
{
}

} // verus!

verus! {

/// The compiler output is sorted by plain filters over its lines, in order:
/// the errors are exactly the lines that start with `error`, and the
/// warnings exactly the other lines that start with `warning` and are not
/// the notice about profiles of non-root packages.
pub proof fn lemma_build_lines_are_filters(ls: Seq<Seq<char>>)
    ensures
        error_lines(ls) == ls.filter(|l: Seq<char>| is_prefix("error"@, l)),
        warning_lines(ls) == ls.filter(
            |l: Seq<char>|
                !is_prefix("error"@, l) && is_prefix("warning"@, l) && !contains_seq(
                    l,
                    "profiles for the non root"@,
                ),
        ),
    decreases ls.len(),
{
    reveal_with_fuel(Seq::filter, 1);
    if ls.len() > 0 {
        lemma_build_lines_are_filters(ls.drop_last());
    }
}

/// The path of an entry whose file name starts with `.env`.
pub open spec fn env_path_of(e: DirEntryName) -> Option<Seq<char>> {
    if is_prefix(".env"@, e.file_name@) {
        Some(e.path@)
    } else {
        None
    }
}

proof fn lemma_env_paths_filter_map(entries: Seq<DirEntryName>)
    ensures
        env_paths(entries) == entries.filter_map(|e: DirEntryName| env_path_of(e)),
    decreases entries.len(),
{
    if entries.len() > 0 {
        lemma_env_paths_filter_map(entries.drop_last());
        let f = |e: DirEntryName| env_path_of(e);
        let rest = entries.drop_last().filter_map(f);
        if is_prefix(".env"@, entries.last().file_name@) {
            assert(rest.push(entries.last().path@) =~= rest + seq![entries.last().path@]);
        }
    }
}

proof fn lemma_filter_map_append(a: Seq<DirEntryName>, b: Seq<DirEntryName>)
    ensures
        (a + b).filter_map(|e: DirEntryName| env_path_of(e)) == a.filter_map(
            |e: DirEntryName| env_path_of(e),
        ) + b.filter_map(|e: DirEntryName| env_path_of(e)),
    decreases b.len(),
{
    let f = |e: DirEntryName| env_path_of(e);
    if b.len() == 0 {
        assert(a + b =~= a);
        assert(a.filter_map(f) + b.filter_map(f) =~= a.filter_map(f));
    } else {
        lemma_filter_map_append(a, b.drop_last());
        assert((a + b).drop_last() =~= a + b.drop_last());
        assert((a + b).last() == b.last());
        match f(b.last()) {
            Some(s) => {
                assert(a.filter_map(f) + b.drop_last().filter_map(f) + seq![s] =~= a.filter_map(f) + (
                b.drop_last().filter_map(f) + seq![s]));
            },
            None => {},
        }
    }
}

/// The vault invariant reports every entry of every scanned directory whose
/// file name starts with `.env`, and nothing else: its list is the paths of
/// those entries, one per entry, in scanning order (directory by directory,
/// entry by entry).
pub proof fn lemma_env_files_are_all_dotenv_entries(dirs: Seq<Vec<DirEntryName>>)
    ensures
        env_paths_all(dirs) == dirs.map_values(|v: Vec<DirEntryName>| v@).flatten().filter_map(
            |e: DirEntryName| env_path_of(e),
        ),
    decreases dirs.len(),
{
    let g = |v: Vec<DirEntryName>| v@;
    let f = |e: DirEntryName| env_path_of(e);
    let m = dirs.map_values(g);
    m.lemma_flatten_and_flatten_alt_are_equivalent();
    if dirs.len() == 0 {
        assert(m.flatten_alt() =~= Seq::<DirEntryName>::empty());
    } else {
        let pm = dirs.drop_last().map_values(g);
        lemma_env_files_are_all_dotenv_entries(dirs.drop_last());
        pm.lemma_flatten_and_flatten_alt_are_equivalent();
        assert(m.drop_last() =~= pm);
        assert(m.flatten_alt() == pm.flatten_alt() + dirs.last()@);
        lemma_filter_map_append(pm.flatten_alt(), dirs.last()@);
        lemma_env_paths_filter_map(dirs.last()@);
    }
}

} // verus!
