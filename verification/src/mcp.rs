//! The MCP server's decisions: which tools it offers, how a request is
//! routed, and the exact JSON-RPC line it answers with.

use vstd::prelude::*;
use crate::text::{views, join, join_strings, trim, trim_chars};
use crate::json::{json_quoted, no_newline, one_line, lemma_no_newline_concat, lemma_one_line, lemma_quoted_no_newline};
use crate::text::chars_of;
use crate::outside::{
    json_string, string_of, opt_text, opt_view, parses_as_json, json_value_text, json_str_value,
    json_value_at, json_str_at,
};

verus! {

/// A tool that the server describes to its clients.
#[derive(Debug, Clone)]
pub struct ToolDefinition {
    pub name: String,
    pub description: String,
}

/// A tool definition by its name and description.
pub open spec fn tool_view(t: ToolDefinition) -> (Seq<char>, Seq<char>) {
    (t.name@, t.description@)
}

/// The tool definitions of the diagnostic toolset.
pub open spec fn tools_definition_spec() -> Seq<(Seq<char>, Seq<char>)> {
    seq![
        ("debug_scan"@, "Perform complete diagnostic scan of services, workspace compilation, and vault security invariants."@),
        ("debug_check_services"@, "Probe status and latencies of SparkOS native services (Cortex, Cockpit, Encoder, LLM Seat, Conduit)."@),
        ("debug_audit_security"@, "Audit zero-disk-secrets invariant and scan for unmasked API key signatures."@),
    ]
}

/// The tools that a `tools/list` request is answered with.
pub open spec fn advertised_tools_spec() -> Seq<(Seq<char>, Seq<char>)> {
    seq![
        ("debug_scan"@, "Perform complete diagnostic scan of services, workspace compilation, and vault security invariants."@),
        ("debug_check_services"@, "Probe status and latencies of SparkOS native services (Cortex, Cockpit, Encoder, LLM Seat, Conduit)."@),
        ("debug_audit_invariants"@, "Audit workspaces for plaintext .env secrets, private key leaks, and unslop voice violations."@),
    ]
}

fn tool(name: &str, description: &str) -> (r: ToolDefinition)
    ensures
        tool_view(r) == (name@, description@),
{
    ToolDefinition { name: String::from_str(name), description: String::from_str(description) }
}

/// The tool definitions of the diagnostic toolset (`tools_definition_spec`).
pub fn get_tools_definition() -> (r: Vec<ToolDefinition>)
    ensures
        r@.map_values(|t: ToolDefinition| tool_view(t)) == tools_definition_spec(),
{
    let mut r: Vec<ToolDefinition> = Vec::new();
    r.push(tool("debug_scan", "Perform complete diagnostic scan of services, workspace compilation, and vault security invariants."));
    r.push(tool("debug_check_services", "Probe status and latencies of SparkOS native services (Cortex, Cockpit, Encoder, LLM Seat, Conduit)."));
    r.push(tool("debug_audit_security", "Audit zero-disk-secrets invariant and scan for unmasked API key signatures."));
    assert(r@.map_values(|t: ToolDefinition| tool_view(t)) =~= tools_definition_spec());
    r
}

/// The tools that the server lists to a client (`advertised_tools_spec`).
pub fn advertised_tools() -> (r: Vec<ToolDefinition>)
    ensures
        r@.map_values(|t: ToolDefinition| tool_view(t)) == advertised_tools_spec(),
{
    let mut r: Vec<ToolDefinition> = Vec::new();
    r.push(tool("debug_scan", "Perform complete diagnostic scan of services, workspace compilation, and vault security invariants."));
    r.push(tool("debug_check_services", "Probe status and latencies of SparkOS native services (Cortex, Cockpit, Encoder, LLM Seat, Conduit)."));
    r.push(tool("debug_audit_invariants", "Audit workspaces for plaintext .env secrets, private key leaks, and unslop voice violations."));
    assert(r@.map_values(|t: ToolDefinition| tool_view(t)) =~= advertised_tools_spec());
    r
}

/// One tool as compact JSON, keys in the sorted order serde_json keeps.
pub open spec fn tool_json(t: (Seq<char>, Seq<char>)) -> Seq<char> {
    "{\"description\":"@ + json_quoted(t.1)
        + ",\"inputSchema\":{\"properties\":{},\"type\":\"object\"},\"name\":"@ + json_quoted(t.0)
        + "}"@
}

/// A list of tools as a compact JSON array.
pub open spec fn tools_json(ts: Seq<(Seq<char>, Seq<char>)>) -> Seq<char> {
    "["@ + join(ts.map_values(|t: (Seq<char>, Seq<char>)| tool_json(t)), ","@) + "]"@
}

/// One tool as compact JSON (`tool_json`).
pub fn render_tool_json(t: &ToolDefinition) -> (r: String)
    ensures
        r@ == tool_json(tool_view(*t)),
{
    let d = json_string(t.description.as_str());
    let n = json_string(t.name.as_str());
    String::from_str("{\"description\":")
        .concat(d.as_str())
        .concat(",\"inputSchema\":{\"properties\":{},\"type\":\"object\"},\"name\":")
        .concat(n.as_str())
        .concat("}")
}

/// A list of tools as the compact JSON array that serde_json writes for it
/// (`tools_json`).
pub fn render_tools_json(tools: &Vec<ToolDefinition>) -> (r: String)
    ensures
        r@ == tools_json(tools@.map_values(|t: ToolDefinition| tool_view(t))),
{
    let mut parts: Vec<String> = Vec::new();
    let mut i: usize = 0;
    while i < tools.len()
        invariant
            i <= tools.len(),
            parts@.len() == i,
            forall|k: int| 0 <= k < i ==> (#[trigger] parts@[k])@ == tool_json(tool_view(tools@[k])),
        decreases tools.len() - i,
    {
        let p = render_tool_json(&tools[i]);
        parts.push(p);
        i = i + 1;
    }
    assert(views(parts@) =~= tools@.map_values(|t: ToolDefinition| tool_view(t)).map_values(
        |t: (Seq<char>, Seq<char>)| tool_json(t),
    ));
    let body = join_strings(&parts, ",");
    String::from_str("[").concat(body.as_str()).concat("]")
}

} // verus!

verus! {

/// The answer to `initialize`, for the request id written as JSON.
pub open spec fn initialize_response(id: Seq<char>) -> Seq<char> {
    "{\"id\":"@ + id
        + ",\"jsonrpc\":\"2.0\",\"result\":{\"capabilities\":{\"tools\":{}},\"protocolVersion\":\"2024-11-05\",\"serverInfo\":{\"name\":\"spark-debugger\",\"version\":\"0.1.0\"}}}\n"@
}

/// The answer to `tools/list`.
pub open spec fn tools_list_response(id: Seq<char>) -> Seq<char> {
    "{\"id\":"@ + id + ",\"jsonrpc\":\"2.0\",\"result\":{\"tools\":"@ + tools_json(
        advertised_tools_spec(),
    ) + "}}\n"@
}

/// The answer to `tools/call`, carrying the tool's output text.
pub open spec fn tool_text_response(id: Seq<char>, text: Seq<char>) -> Seq<char> {
    "{\"id\":"@ + id + ",\"jsonrpc\":\"2.0\",\"result\":{\"content\":[{\"text\":"@ + json_quoted(text)
        + ",\"type\":\"text\"}]}}\n"@
}

/// The answer to a method the server does not know.
pub open spec fn method_not_found_response(id: Seq<char>) -> Seq<char> {
    "{\"error\":{\"code\":-32601,\"message\":\"Method not found\"},\"id\":"@ + id
        + ",\"jsonrpc\":\"2.0\"}\n"@
}

/// The text a call of an unknown tool is answered with.
pub open spec fn unknown_tool_text(name: Seq<char>) -> Seq<char> {
    "Unknown tool: "@ + name
}

/// The answer to `initialize` (`initialize_response`).
pub fn initialize_reply(id_json: &str) -> (r: String)
    ensures
        r@ == initialize_response(id_json@),
{
    String::from_str("{\"id\":").concat(id_json).concat(
        ",\"jsonrpc\":\"2.0\",\"result\":{\"capabilities\":{\"tools\":{}},\"protocolVersion\":\"2024-11-05\",\"serverInfo\":{\"name\":\"spark-debugger\",\"version\":\"0.1.0\"}}}\n",
    )
}

/// The answer to `tools/list` (`tools_list_response`).
pub fn tools_list_reply(id_json: &str) -> (r: String)
    ensures
        r@ == tools_list_response(id_json@),
{
    let tools = advertised_tools();
    let list = render_tools_json(&tools);
    String::from_str("{\"id\":").concat(id_json).concat(
        ",\"jsonrpc\":\"2.0\",\"result\":{\"tools\":",
    ).concat(list.as_str()).concat("}}\n")
}

/// The answer to `tools/call` with the tool's output (`tool_text_response`).
pub fn tool_result_reply(id_json: &str, text: &str) -> (r: String)
    ensures
        r@ == tool_text_response(id_json@, text@),
{
    let quoted = json_string(text);
    String::from_str("{\"id\":").concat(id_json).concat(
        ",\"jsonrpc\":\"2.0\",\"result\":{\"content\":[{\"text\":",
    ).concat(quoted.as_str()).concat(",\"type\":\"text\"}]}}\n")
}

/// The answer to an unknown method (`method_not_found_response`).
pub fn method_not_found_reply(id_json: &str) -> (r: String)
    ensures
        r@ == method_not_found_response(id_json@),
{
    String::from_str("{\"error\":{\"code\":-32601,\"message\":\"Method not found\"},\"id\":").concat(
        id_json,
    ).concat(",\"jsonrpc\":\"2.0\"}\n")
}

/// The diagnostic tools that a client can run.
#[derive(Debug, Clone, Copy, PartialEq, Eq)]
pub enum ToolKind {
    /// `debug_scan`: the full audit.
    FullScan,
    /// `debug_check_services`: the service probes.
    CheckServices,
    /// `debug_audit_invariants`: the vault invariant of the workspace and the
    /// cockpit checkout under the home directory.
    AuditInvariants,
}

/// The tool a `tools/call` names, if the server runs one by that name.
pub open spec fn tool_kind_of(name: Seq<char>) -> Option<ToolKind> {
    if name == "debug_scan"@ {
        Some(ToolKind::FullScan)
    } else if name == "debug_check_services"@ {
        Some(ToolKind::CheckServices)
    } else if name == "debug_audit_invariants"@ {
        Some(ToolKind::AuditInvariants)
    } else {
        None
    }
}

/// A request line, as far as the server reads it: its `id` written back as
/// compact JSON (`null` when absent), its `method` when that is a string, and
/// `params.name` when that is a string.
#[derive(Debug, Clone)]
pub struct McpRequest {
    pub id_json: String,
    pub method: Option<String>,
    pub tool_name: Option<String>,
}

/// What the server does with a request.
#[derive(Debug, Clone)]
pub enum McpAction {
    /// Write this line to the client.
    Reply { line: String },
    /// A notification: nothing to write.
    NoReply,
    /// Run the tool, then answer with `tool_result_reply` for this request
    /// id, written as JSON.
    RunTool { tool: ToolKind, id_json: String },
}

/// What the server does, with the reply given by its text.
pub enum McpOutcome {
    Reply(Seq<char>),
    NoReply,
    RunTool(ToolKind, Seq<char>),
}

/// An action by its text.
pub open spec fn outcome_of(a: McpAction) -> McpOutcome {
    match a {
        McpAction::Reply { line } => McpOutcome::Reply(line@),
        McpAction::NoReply => McpOutcome::NoReply,
        McpAction::RunTool { tool, id_json } => McpOutcome::RunTool(tool, id_json@),
    }
}

/// A missing string field reads as the empty string.
pub open spec fn text_or_empty(s: Option<String>) -> Seq<char> {
    match s {
        Some(t) => t@,
        None => Seq::empty(),
    }
}

/// How the server answers a request with this id, method and tool name.
pub open spec fn route(id: Seq<char>, method: Seq<char>, tool: Seq<char>) -> McpOutcome {
    if method == "initialize"@ {
        McpOutcome::Reply(initialize_response(id))
    } else if method == "notifications/initialized"@ {
        McpOutcome::NoReply
    } else if method == "tools/list"@ {
        McpOutcome::Reply(tools_list_response(id))
    } else if method == "tools/call"@ {
        match tool_kind_of(tool) {
            Some(k) => McpOutcome::RunTool(k, id),
            None => McpOutcome::Reply(tool_text_response(id, unknown_tool_text(tool))),
        }
    } else {
        McpOutcome::Reply(method_not_found_response(id))
    }
}

fn text_is(s: &String, lit: &str) -> (r: bool)
    ensures
        r == (s@ == lit@),
{
    let l = String::from_str(lit);
    *s == l
}

fn owned_or_empty(s: &Option<String>) -> (r: String)
    ensures
        r@ == text_or_empty(*s),
{
    match s {
        Some(t) => t.clone(),
        None => String::new(),
    }
}

/// Routes one request (`route`).
pub fn mcp_dispatch(req: &McpRequest) -> (r: McpAction)
    ensures
        outcome_of(r) == route(req.id_json@, text_or_empty(req.method), text_or_empty(req.tool_name)),
{
    let method = owned_or_empty(&req.method);
    let id = req.id_json.as_str();
    if text_is(&method, "initialize") {
        McpAction::Reply { line: initialize_reply(id) }
    } else if text_is(&method, "notifications/initialized") {
        McpAction::NoReply
    } else if text_is(&method, "tools/list") {
        McpAction::Reply { line: tools_list_reply(id) }
    } else if text_is(&method, "tools/call") {
        let name = owned_or_empty(&req.tool_name);
        if text_is(&name, "debug_scan") {
            McpAction::RunTool { tool: ToolKind::FullScan, id_json: req.id_json.clone() }
        } else if text_is(&name, "debug_check_services") {
            McpAction::RunTool { tool: ToolKind::CheckServices, id_json: req.id_json.clone() }
        } else if text_is(&name, "debug_audit_invariants") {
            McpAction::RunTool { tool: ToolKind::AuditInvariants, id_json: req.id_json.clone() }
        } else {
            let text = String::from_str("Unknown tool: ").concat(name.as_str());
            McpAction::Reply { line: tool_result_reply(id, text.as_str()) }
        }
    } else {
        McpAction::Reply { line: method_not_found_reply(id) }
    }
}

/// The request text of an input line: the line without surrounding
/// whitespace, or nothing for a blank line, which the server skips.
pub fn request_text(line: &str) -> (r: Option<String>)
    ensures
        match r {
            Some(t) => t@ == trim(line@) && trim(line@).len() > 0,
            None => trim(line@).len() == 0,
        },
{
    let cs = chars_of(line);
    let t = trim_chars(&cs);
    if t.len() == 0 {
        None
    } else {
        Some(string_of(&t))
    }
}

/// The directories whose vault invariant the `debug_audit_invariants` tool
/// checks: the workspace and the cockpit checkout under the home directory.
pub fn invariant_tool_roots(workspace_dir: &str, home: &str) -> (r: Vec<String>)
    ensures
        views(r@) == seq![workspace_dir@, home@ + "/spark-cockpit-rs"@],
{
    let mut r: Vec<String> = Vec::new();
    r.push(String::from_str(workspace_dir));
    r.push(String::from_str(home).concat("/spark-cockpit-rs"));
    assert(views(r@) =~= seq![workspace_dir@, home@ + "/spark-cockpit-rs"@]);
    r
}

} // verus!

verus! {

proof fn lemma_join_no_newline(parts: Seq<Seq<char>>, sep: Seq<char>)
    requires
        no_newline(sep),
        forall|i: int| 0 <= i < parts.len() ==> no_newline(#[trigger] parts[i]),
    ensures
        no_newline(join(parts, sep)),
    decreases parts.len(),
{
    if parts.len() > 1 {
        let prev = parts.drop_last();
        assert forall|i: int| 0 <= i < prev.len() implies no_newline(#[trigger] prev[i]) by {
            assert(prev[i] == parts[i]);
        }
        lemma_join_no_newline(prev, sep);
        lemma_no_newline_concat(join(prev, sep), sep);
        lemma_no_newline_concat(join(prev, sep) + sep, parts.last());
    } else if parts.len() == 1 {
        assert(no_newline(parts[0]));
    }
}

proof fn lemma_literal_no_newline(s: Seq<char>)
    requires
        forall|i: int| 0 <= i < s.len() ==> s[i] != '\n',
    ensures
        no_newline(s),
{
}

proof fn lemma_tool_json_no_newline(t: (Seq<char>, Seq<char>))
    ensures
        no_newline(tool_json(t)),
{
    reveal_strlit("{\"description\":");
    reveal_strlit(",\"inputSchema\":{\"properties\":{},\"type\":\"object\"},\"name\":");
    reveal_strlit("}");
    lemma_quoted_no_newline(t.0);
    lemma_quoted_no_newline(t.1);
    let a = "{\"description\":"@;
    let b = ",\"inputSchema\":{\"properties\":{},\"type\":\"object\"},\"name\":"@;
    let c = "}"@;
    lemma_literal_no_newline(a);
    lemma_literal_no_newline(b);
    lemma_literal_no_newline(c);
    lemma_no_newline_concat(a, json_quoted(t.1));
    lemma_no_newline_concat(a + json_quoted(t.1), b);
    lemma_no_newline_concat(a + json_quoted(t.1) + b, json_quoted(t.0));
    lemma_no_newline_concat(a + json_quoted(t.1) + b + json_quoted(t.0), c);
}

proof fn lemma_tools_json_no_newline(ts: Seq<(Seq<char>, Seq<char>)>)
    ensures
        no_newline(tools_json(ts)),
{
    reveal_strlit("[");
    reveal_strlit("]");
    reveal_strlit(",");
    let parts = ts.map_values(|t: (Seq<char>, Seq<char>)| tool_json(t));
    assert forall|i: int| 0 <= i < parts.len() implies no_newline(#[trigger] parts[i]) by {
        lemma_tool_json_no_newline(ts[i]);
    }
    lemma_literal_no_newline(","@);
    lemma_join_no_newline(parts, ","@);
    lemma_literal_no_newline("["@);
    lemma_literal_no_newline("]"@);
    lemma_no_newline_concat("["@, join(parts, ","@));
    lemma_no_newline_concat("["@ + join(parts, ","@), "]"@);
}

/// A text of three parts, the last ending in its only line feed, is one line
/// when the first two hold no line feed.
proof fn lemma_framed(a: Seq<char>, b: Seq<char>, c: Seq<char>)
    requires
        no_newline(a),
        no_newline(b),
        c.len() > 0,
        c.last() == '\n',
        no_newline(c.drop_last()),
    ensures
        one_line(a + b + c),
{
    lemma_no_newline_concat(a, b);
    lemma_no_newline_concat(a + b, c.drop_last());
    assert((a + b + c) =~= (a + b + c.drop_last()) + seq!['\n']);
    lemma_one_line(a + b + c.drop_last(), seq!['\n']);
}

/// Every tool-call answer is a single line: the server's stdio transport
/// carries one JSON-RPC message per line, and the tool's text is quoted with
/// its line feeds escaped. The request id must hold no line feed, as compact
/// JSON never does.
pub proof fn lemma_tool_reply_is_one_line(id: Seq<char>, text: Seq<char>)
    requires
        no_newline(id),
    ensures
        one_line(tool_text_response(id, text)),
{
    reveal_strlit("{\"id\":");
    reveal_strlit(",\"jsonrpc\":\"2.0\",\"result\":{\"content\":[{\"text\":");
    reveal_strlit(",\"type\":\"text\"}]}}\n");
    let a = "{\"id\":"@;
    let b = ",\"jsonrpc\":\"2.0\",\"result\":{\"content\":[{\"text\":"@;
    let c = ",\"type\":\"text\"}]}}\n"@;
    lemma_quoted_no_newline(text);
    lemma_literal_no_newline(a);
    lemma_literal_no_newline(b);
    lemma_no_newline_concat(a, id);
    lemma_no_newline_concat(a + id, b);
    assert(no_newline(c.drop_last())) by {
        assert forall|i: int| 0 <= i < c.drop_last().len() implies c.drop_last()[i] != '\n' by {
            assert(c.drop_last()[i] == c[i]);
        }
    }
    lemma_framed(a + id + b, json_quoted(text), c);
}

/// Every line the server writes in answer to a request is a single line
/// ending in a line feed, whatever the method and tool name, when the request
/// id holds no line feed.
pub proof fn lemma_replies_are_one_line(id: Seq<char>, method: Seq<char>, tool: Seq<char>)
    requires
        no_newline(id),
    ensures
        route(id, method, tool) matches McpOutcome::Reply(line) ==> one_line(line),
{
    reveal_strlit("{\"id\":");
    let a = "{\"id\":"@;
    lemma_literal_no_newline(a);
    lemma_no_newline_concat(a, id);
    if method == "initialize"@ {
        let c = ",\"jsonrpc\":\"2.0\",\"result\":{\"capabilities\":{\"tools\":{}},\"protocolVersion\":\"2024-11-05\",\"serverInfo\":{\"name\":\"spark-debugger\",\"version\":\"0.1.0\"}}}\n"@;
        reveal_strlit(",\"jsonrpc\":\"2.0\",\"result\":{\"capabilities\":{\"tools\":{}},\"protocolVersion\":\"2024-11-05\",\"serverInfo\":{\"name\":\"spark-debugger\",\"version\":\"0.1.0\"}}}\n");
        assert(no_newline(c.drop_last())) by {
            assert forall|i: int| 0 <= i < c.drop_last().len() implies c.drop_last()[i] != '\n' by {
                assert(c.drop_last()[i] == c[i]);
            }
        }
        lemma_framed(a, id, c);
    } else if method == "notifications/initialized"@ {
    } else if method == "tools/list"@ {
        let b = ",\"jsonrpc\":\"2.0\",\"result\":{\"tools\":"@;
        let c = "}}\n"@;
        reveal_strlit(",\"jsonrpc\":\"2.0\",\"result\":{\"tools\":");
        reveal_strlit("}}\n");
        lemma_literal_no_newline(b);
        lemma_no_newline_concat(a + id, b);
        lemma_tools_json_no_newline(advertised_tools_spec());
        assert(c.drop_last() =~= seq!['}', '}']);
        lemma_framed(a + id + b, tools_json(advertised_tools_spec()), c);
    } else if method == "tools/call"@ {
        lemma_tool_reply_is_one_line(id, unknown_tool_text(tool));
    } else {
        let e = "{\"error\":{\"code\":-32601,\"message\":\"Method not found\"},\"id\":"@;
        let c = ",\"jsonrpc\":\"2.0\"}\n"@;
        reveal_strlit("{\"error\":{\"code\":-32601,\"message\":\"Method not found\"},\"id\":");
        reveal_strlit(",\"jsonrpc\":\"2.0\"}\n");
        lemma_literal_no_newline(e);
        assert(no_newline(c.drop_last())) by {
            assert forall|i: int| 0 <= i < c.drop_last().len() implies c.drop_last()[i] != '\n' by {
                assert(c.drop_last()[i] == c[i]);
            }
        }
        lemma_framed(e, id, c);
    }
}

/// Every tool that `tools/list` advertises can be called by its name.
pub proof fn lemma_advertised_tools_are_callable()
    ensures
        forall|i: int|
            0 <= i < advertised_tools_spec().len() ==> (tool_kind_of(
                #[trigger] advertised_tools_spec()[i].0,
            ) is Some),
{
    let ts = advertised_tools_spec();
    assert(tool_kind_of(ts[0].0) is Some);
    assert(tool_kind_of(ts[1].0) is Some);
    assert(tool_kind_of(ts[2].0) is Some);
}

/// A notification gets no answer; any method other than `initialize`,
/// `tools/list`, `tools/call` and `notifications/initialized` gets the
/// JSON-RPC "method not found" error carrying the request id.
pub proof fn lemma_unknown_methods_are_refused(id: Seq<char>, method: Seq<char>, tool: Seq<char>)
    ensures
        method == "notifications/initialized"@ ==> route(id, method, tool) is NoReply,
        method != "initialize"@ && method != "notifications/initialized"@ && method
            != "tools/list"@ && method != "tools/call"@ ==> route(id, method, tool)
            == McpOutcome::Reply(method_not_found_response(id)),
{
    reveal_strlit("initialize");
    reveal_strlit("notifications/initialized");
    assert("initialize"@.len() != "notifications/initialized"@.len());
}

} // verus!

verus! {

/// The request fields of a text that parses as JSON: the `id` written as
/// compact JSON, `null` when there is none; `method` and `params.name` when
/// they are strings.
pub open spec fn request_fields(text: Seq<char>) -> (Seq<char>, Option<Seq<char>>, Option<Seq<char>>) {
    (
        match json_value_text(text, "/id"@) {
            Some(t) => t,
            None => "null"@,
        },
        json_str_value(text, "/method"@),
        json_str_value(text, "/params/name"@),
    )
}

/// Reads a request text: nothing when it is not JSON, otherwise its fields
/// (`request_fields`).
pub fn parse_request(text: &str) -> (r: Option<McpRequest>)
    ensures
        r is None <==> !parses_as_json(text@),
        r matches Some(q) ==> (q.id_json@, opt_view(q.method), opt_view(q.tool_name))
            == request_fields(text@),
        r matches Some(q) ==> no_newline(q.id_json@),
{
    let id = match json_value_at(text, "/id") {
        None => return None,
        Some(found) => found,
    };
    let id_json = match id {
        Some(t) => t,
        None => {
            proof {
                reveal_strlit("null");
            }
            String::from_str("null")
        },
    };
    let method = match json_str_at(text, "/method") {
        None => return None,
        Some(m) => m,
    };
    let tool_name = match json_str_at(text, "/params/name") {
        None => return None,
        Some(n) => n,
    };
    Some(McpRequest { id_json, method, tool_name })
}

/// How the server answers an input line: nothing for a blank line, for a
/// line that is not JSON and for a notification; otherwise the route of the
/// request's id, method and tool name (a missing method or tool name reads
/// as empty).
pub open spec fn line_outcome(line: Seq<char>) -> Option<McpOutcome> {
    let t = trim(line);
    if t.len() == 0 || !parses_as_json(t) {
        None
    } else {
        let f = request_fields(t);
        match route(f.0, opt_text(f.1), opt_text(f.2)) {
            McpOutcome::NoReply => None,
            o => Some(o),
        }
    }
}

/// Handles one input line (`line_outcome`). Every reply is a single line
/// ending in a line feed, and so is every tool answer built for the id that
/// comes with a tool to run.
pub fn handle_line(line: &str) -> (r: Option<McpAction>)
    ensures
        match r {
            None => line_outcome(line@) is None,
            Some(a) => line_outcome(line@) == Some(outcome_of(a)),
        },
        r matches Some(McpAction::Reply { line: l }) ==> one_line(l@),
        r matches Some(McpAction::RunTool { tool, id_json }) ==> forall|text: Seq<char>|
            one_line(#[trigger] tool_text_response(id_json@, text)),
{
    let text = match request_text(line) {
        None => return None,
        Some(t) => t,
    };
    let req = match parse_request(text.as_str()) {
        None => return None,
        Some(q) => q,
    };
    proof {
        lemma_replies_are_one_line(
            req.id_json@,
            text_or_empty(req.method),
            text_or_empty(req.tool_name),
        );
        assert forall|t: Seq<char>| one_line(#[trigger] tool_text_response(req.id_json@, t)) by {
            lemma_tool_reply_is_one_line(req.id_json@, t);
        }
        assert(opt_text(opt_view(req.method)) == text_or_empty(req.method));
        assert(opt_text(opt_view(req.tool_name)) == text_or_empty(req.tool_name));
    }
    match mcp_dispatch(&req) {
        McpAction::NoReply => None,
        a => Some(a),
    }
}

/// A line gets no answer exactly when it is blank, is not JSON, or is the
/// `notifications/initialized` notification; every other line gets exactly
/// one answer.
pub proof fn lemma_which_lines_are_answered(line: Seq<char>)
    ensures
        line_outcome(line) is None <==> (trim(line).len() == 0 || !parses_as_json(trim(line))
            || opt_text(request_fields(trim(line)).1) == "notifications/initialized"@),
{
    reveal_strlit("initialize");
    reveal_strlit("notifications/initialized");
    reveal_strlit("tools/list");
    reveal_strlit("tools/call");
    assert("initialize"@.len() != "notifications/initialized"@.len());
    assert("tools/list"@.len() != "notifications/initialized"@.len());
    assert("tools/call"@.len() != "notifications/initialized"@.len());
}

} // verus!
