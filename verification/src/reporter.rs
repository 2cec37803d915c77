//! What the incident reporter writes: where it finds the Cortex token and the
//! Honeycomb database, the bug report it commits to Cortex, and the alert comb
//! it places on the Honeycomb wall.

use vstd::prelude::*;
use crate::text::{trim, trim_chars};
use crate::text::chars_of;
use crate::outside::{
    string_of, uuid_text_from_random, uuid_v4_bytes, hex_bytes, debug_report,
    report_debug_text, read_clock, rfc3339_text, json_string,
};
use crate::text::is_suffix;
use crate::json::json_quoted;
use crate::audit::{SystemAuditReport, timestamp_of};

verus! {

/// The home directory as the reporter finds it: `HOME`, else `USERPROFILE`,
/// else the current directory.
pub open spec fn home_dir_spec(home: Option<String>, userprofile: Option<String>) -> Seq<char> {
    match home {
        Some(h) => h@,
        None => match userprofile {
            Some(u) => u@,
            None => "."@,
        },
    }
}

/// The home directory (`home_dir_spec`) from the values of `HOME` and
/// `USERPROFILE`, each given when it is set to valid Unicode.
pub fn home_dir(home: Option<String>, userprofile: Option<String>) -> (r: String)
    ensures
        r@ == home_dir_spec(home, userprofile),
{
    match home {
        Some(h) => h,
        None => match userprofile {
            Some(u) => u,
            None => String::from_str("."),
        },
    }
}

/// `PathBuf::join` with a relative path on Unix: a `/` goes between the two
/// unless the base is empty or already ends with one.
pub open spec fn path_join(base: Seq<char>, rel: Seq<char>) -> Seq<char> {
    if base.len() == 0 || base.last() == '/' {
        base + rel
    } else {
        base + "/"@ + rel
    }
}

/// `base` joined with the relative path `rel` (`path_join`).
pub fn join_path(base: &str, rel: &str) -> (r: String)
    ensures
        r@ == path_join(base@, rel@),
{
    let cs = chars_of(base);
    if cs.len() == 0 || cs[cs.len() - 1] == '/' {
        String::from_str(base).concat(rel)
    } else {
        String::from_str(base).concat("/").concat(rel)
    }
}

/// Where the Cortex API token is kept under the home directory.
pub fn cortex_token_path(home: &str) -> (r: String)
    ensures
        r@ == path_join(home@, ".config/cortex/token"@),
{
    join_path(home, ".config/cortex/token")
}

/// Where the Honeycomb database is kept under the home directory.
pub fn hive_db_path(home: &str) -> (r: String)
    ensures
        r@ == path_join(home@, ".config/cortex/hive.db"@),
{
    join_path(home, ".config/cortex/hive.db")
}

/// The Cortex endpoint that takes bug reports.
pub fn cortex_write_url() -> (r: String)
    ensures
        r@ == "http://127.0.0.1:18080"@ + "/api/cortex/write"@,
{
    String::from_str("http://127.0.0.1:18080").concat("/api/cortex/write")
}

/// The `Authorization` header for a token read from its file: the token
/// without surrounding whitespace, after `Bearer `.
pub fn bearer_header(token: &str) -> (r: String)
    ensures
        r@ == "Bearer "@ + trim(token@),
{
    let cs = chars_of(token);
    let t = trim_chars(&cs);
    let ts = string_of(&t);
    String::from_str("Bearer ").concat(ts.as_str())
}

proof fn lemma_hex_bytes_len(b: Seq<u8>)
    ensures
        hex_bytes(b).len() == 2 * b.len(),
    decreases b.len(),
{
    if b.len() > 0 {
        lemma_hex_bytes_len(b.drop_last());
    }
}

/// The random tag of an incident: the first eight hex digits of the
/// version-4 UUID made from the random bytes, which are those of its first
/// four bytes.
pub open spec fn random_tag(random: Seq<u8>) -> Seq<char> {
    hex_bytes(random.subrange(0, 4))
}

/// The random tag (`random_tag`): the first eight characters of the UUID's
/// text.
pub fn short_tag(random: [u8; 16]) -> (r: String)
    ensures
        r@ == random_tag(random@),
{
    let u = uuid_text_from_random(random);
    let cs = chars_of(u.as_str());
    proof {
        let b = uuid_v4_bytes(random@);
        lemma_hex_bytes_len(b.subrange(0, 4));
        assert(b.subrange(0, 4) =~= random@.subrange(0, 4));
        assert(cs@.subrange(0, 8) =~= hex_bytes(random@.subrange(0, 4)));
    }
    let mut t: Vec<char> = Vec::new();
    let mut i: usize = 0;
    while i < 8
        invariant
            i <= 8,
            cs@.len() >= 8,
            t@ == cs@.subrange(0, i as int),
        decreases 8 - i,
    {
        t.push(cs[i]);
        assert(t@ =~= cs@.subrange(0, i + 1));
        i = i + 1;
    }
    string_of(&t)
}

/// A bug report for the Cortex memory.
#[derive(Debug, Clone)]
pub struct CortexIncident {
    pub space: String,
    pub canonical_name: String,
    pub entity_type: String,
    pub content: String,
}

/// The text of a bug report: the failure summary, then the report's details
/// on the next line.
pub open spec fn incident_content(summary: Seq<char>, details: Seq<char>) -> Seq<char> {
    "Incident detected by spark-debugger: "@ + summary + "\n        Report Details: "@ + details
}

/// A bug report about a failed audit: named `incident-` and the random tag
/// of the given random bytes, holding the summary and the report's `Debug`
/// text.
pub fn cortex_incident(random: [u8; 16], summary: &str, report: &SystemAuditReport) -> (r:
    CortexIncident)
    ensures
        r.space@ == "atlas-memory"@,
        r.canonical_name@ == "incident-"@ + random_tag(random@),
        r.entity_type@ == "bug_report"@,
        r.content@ == incident_content(summary@, report_debug_text(*report)),
{
    let tag = short_tag(random);
    let details = debug_report(report);
    CortexIncident {
        space: String::from_str("atlas-memory"),
        canonical_name: String::from_str("incident-").concat(tag.as_str()),
        entity_type: String::from_str("bug_report"),
        content: String::from_str("Incident detected by spark-debugger: ").concat(summary).concat(
            "\n        Report Details: ",
        ).concat(details.as_str()),
    }
}

/// A bug report as the JSON body of the Cortex write request: the compact
/// object that serde_json writes, keys in sorted order.
pub open spec fn cortex_payload(i: CortexIncident) -> Seq<char> {
    "{\"canonicalName\":"@ + json_quoted(i.canonical_name@) + ",\"content\":"@ + json_quoted(
        i.content@,
    ) + ",\"entityType\":"@ + json_quoted(i.entity_type@) + ",\"space\":"@ + json_quoted(
        i.space@,
    ) + "}"@
}

/// The JSON body of the Cortex write request (`cortex_payload`).
pub fn cortex_payload_json(i: &CortexIncident) -> (r: String)
    ensures
        r@ == cortex_payload(*i),
{
    let name = json_string(i.canonical_name.as_str());
    let content = json_string(i.content.as_str());
    let kind = json_string(i.entity_type.as_str());
    let space = json_string(i.space.as_str());
    String::from_str("{\"canonicalName\":").concat(name.as_str()).concat(",\"content\":").concat(
        content.as_str(),
    ).concat(",\"entityType\":").concat(kind.as_str()).concat(",\"space\":").concat(
        space.as_str(),
    ).concat("}")
}

/// One HTTP request header.
#[derive(Debug, Clone)]
pub struct HttpHeader {
    pub name: String,
    pub value: String,
}

/// The headers of the Cortex write request for a token read from its file:
/// the bearer token without surrounding whitespace, and the JSON content
/// type.
pub fn cortex_request_headers(token: &str) -> (r: Vec<HttpHeader>)
    ensures
        r@.len() == 2,
        r@[0].name@ == "Authorization"@,
        r@[0].value@ == "Bearer "@ + trim(token@),
        r@[1].name@ == "content-type"@,
        r@[1].value@ == "application/json"@,
{
    let mut r: Vec<HttpHeader> = Vec::new();
    r.push(HttpHeader { name: String::from_str("Authorization"), value: bearer_header(token) });
    r.push(HttpHeader {
        name: String::from_str("content-type"),
        value: String::from_str("application/json"),
    });
    r
}

/// An alert comb for the Honeycomb wall; it is placed at `(q, r) = (-2, 2)`
/// by `hive_insert_sql`.
#[derive(Debug, Clone)]
pub struct HiveComb {
    pub id: String,
    pub author: String,
    pub role: String,
    pub content: String,
    pub intent: String,
    pub created_at: String,
}

/// The text of an alert comb.
pub open spec fn alert_content(summary: Seq<char>) -> Seq<char> {
    "\u{1F6A8} AUDIT ALERT: "@ + summary
}

/// An alert comb tagged with the random tag of the given bytes, created at
/// `now`.
pub fn alert_comb_with(random: [u8; 16], now: String, summary: &str) -> (r: HiveComb)
    ensures
        r.id@ == "comb-alert-"@ + random_tag(random@),
        r.author@ == "spark-debugger"@,
        r.role@ == "watchdog"@,
        r.content@ == alert_content(summary@),
        r.intent@ == "branch"@,
        r.created_at == now,
{
    let tag = short_tag(random);
    HiveComb {
        id: String::from_str("comb-alert-").concat(tag.as_str()),
        author: String::from_str("spark-debugger"),
        role: String::from_str("watchdog"),
        content: String::from_str("\u{1F6A8} AUDIT ALERT: ").concat(summary),
        intent: String::from_str("branch"),
        created_at: now,
    }
}

/// The alert comb for a failed audit, tagged with the random tag of the
/// given bytes and stamped with the current UTC time; `None` only when the
/// system clock reads an instant that chrono cannot represent.
pub fn alert_comb(random: [u8; 16], summary: &str) -> (r: Option<HiveComb>)
    ensures
        r matches Some(c) ==> {
            &&& c.id@ == "comb-alert-"@ + random_tag(random@)
            &&& c.author@ == "spark-debugger"@
            &&& c.role@ == "watchdog"@
            &&& c.content@ == alert_content(summary@)
            &&& c.intent@ == "branch"@
            &&& is_suffix("+00:00"@, c.created_at@)
            &&& exists|secs: i64, nanos: u32| c.created_at@ == rfc3339_text(secs, nanos)
        },
{
    let reading = read_clock();
    match timestamp_of(&reading) {
        Some(now) => Some(alert_comb_with(random, now, summary)),
        None => None,
    }
}

/// The statement that places an alert comb on the outer ring of the wall;
/// its parameters are the comb's id, author, role, content, intent and
/// creation time, in that order.
pub fn hive_insert_sql() -> (r: String)
    ensures
        r@ == "INSERT INTO hive_combs (id, q, r, author, role, content, intent, created_at)\n                 VALUES (?1, -2, 2, ?2, ?3, ?4, ?5, ?6)"@,
{
    String::from_str(
        "INSERT INTO hive_combs (id, q, r, author, role, content, intent, created_at)\n                 VALUES (?1, -2, 2, ?2, ?3, ?4, ?5, ?6)",
    )
}

} // verus!
