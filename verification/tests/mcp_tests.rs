use serde_json::Value;
use spark_debugger::mcp::{
    advertised_tools, get_tools_definition, handle_line, initialize_reply, parse_request, invariant_tool_roots, mcp_dispatch,
    method_not_found_reply, render_tools_json, request_text, tool_result_reply, tools_list_reply,
    McpAction, McpRequest, ToolKind,
};

#[test]
fn test_mcp_tools_definition() {
    let tools: Value = serde_json::from_str(&render_tools_json(&get_tools_definition())).unwrap();
    let list = tools.as_array().expect("array of tools");
    assert_eq!(list.len(), 3);
    let names: Vec<&str> =
        list.iter().filter_map(|t| t.get("name").and_then(Value::as_str)).collect();
    assert!(names.contains(&"debug_scan"));
    assert!(names.contains(&"debug_check_services"));
    assert!(names.contains(&"debug_audit_security"));
}

/// serde_json writes a parsed value back in canonical form: object keys
/// sorted, no spaces. The library's text must already be in that form.
fn canonical(text: &str) -> String {
    let v: Value = serde_json::from_str(text).unwrap();
    v.to_string()
}

#[test]
fn tool_list_json_is_what_serde_json_writes() {
    let text = render_tools_json(&get_tools_definition());
    assert_eq!(canonical(&text), text);
    let v: Value = serde_json::from_str(&text).unwrap();
    assert_eq!(v[0]["inputSchema"]["type"], "object");
    assert!(v[0]["inputSchema"]["properties"].as_object().unwrap().is_empty());
    assert_eq!(
        v[2]["description"],
        "Audit zero-disk-secrets invariant and scan for unmasked API key signatures."
    );
}

fn request(id: &str, method: Option<&str>, tool: Option<&str>) -> McpRequest {
    McpRequest {
        id_json: id.to_string(),
        method: method.map(|m| m.to_string()),
        tool_name: tool.map(|t| t.to_string()),
    }
}

fn reply_of(a: McpAction) -> String {
    match a {
        McpAction::Reply { line } => line,
        other => panic!("expected a reply, got {:?}", other),
    }
}

#[test]
fn initialize_is_answered_with_server_info() {
    let line = reply_of(mcp_dispatch(&request("1", Some("initialize"), None)));
    assert!(line.ends_with('\n'));
    let body = line.trim_end_matches('\n');
    assert_eq!(canonical(body), body);
    let v: Value = serde_json::from_str(body).unwrap();
    assert_eq!(v["id"], 1);
    assert_eq!(v["jsonrpc"], "2.0");
    assert_eq!(v["result"]["protocolVersion"], "2024-11-05");
    assert_eq!(v["result"]["serverInfo"]["name"], "spark-debugger");
    assert_eq!(v["result"]["serverInfo"]["version"], "0.1.0");
    assert!(v["result"]["capabilities"]["tools"].as_object().unwrap().is_empty());
    assert_eq!(line, initialize_reply("1"));
}

#[test]
fn notifications_get_no_answer() {
    assert!(matches!(
        mcp_dispatch(&request("null", Some("notifications/initialized"), None)),
        McpAction::NoReply
    ));
}

#[test]
fn tools_list_advertises_the_callable_tools() {
    let line = reply_of(mcp_dispatch(&request("\"a\"", Some("tools/list"), None)));
    assert_eq!(line, tools_list_reply("\"a\""));
    let body = line.trim_end_matches('\n');
    assert_eq!(canonical(body), body);
    let v: Value = serde_json::from_str(body).unwrap();
    assert_eq!(v["id"], "a");
    let names: Vec<&str> = v["result"]["tools"]
        .as_array()
        .unwrap()
        .iter()
        .map(|t| t["name"].as_str().unwrap())
        .collect();
    assert_eq!(names, vec!["debug_scan", "debug_check_services", "debug_audit_invariants"]);
    for t in advertised_tools() {
        let action = mcp_dispatch(&request("1", Some("tools/call"), Some(&t.name)));
        assert!(matches!(action, McpAction::RunTool { .. }));
    }
}

#[test]
fn tool_calls_are_routed_by_name() {
    assert!(matches!(
        mcp_dispatch(&request("1", Some("tools/call"), Some("debug_scan"))),
        McpAction::RunTool { tool: ToolKind::FullScan, .. }
    ));
    assert!(matches!(
        mcp_dispatch(&request("1", Some("tools/call"), Some("debug_check_services"))),
        McpAction::RunTool { tool: ToolKind::CheckServices, .. }
    ));
    assert!(matches!(
        mcp_dispatch(&request("1", Some("tools/call"), Some("debug_audit_invariants"))),
        McpAction::RunTool { tool: ToolKind::AuditInvariants, .. }
    ));
    // The security tool of the definition list is not one the server runs.
    let line = reply_of(mcp_dispatch(&request("7", Some("tools/call"), Some("debug_audit_security"))));
    let v: Value = serde_json::from_str(line.trim_end()).unwrap();
    assert_eq!(v["result"]["content"][0]["text"], "Unknown tool: debug_audit_security");
    assert_eq!(v["result"]["content"][0]["type"], "text");
    let line = reply_of(mcp_dispatch(&request("7", Some("tools/call"), None)));
    let v: Value = serde_json::from_str(line.trim_end()).unwrap();
    assert_eq!(v["result"]["content"][0]["text"], "Unknown tool: ");
}

#[test]
fn unknown_methods_get_method_not_found() {
    for m in [Some("ping"), None, Some("")] {
        let line = reply_of(mcp_dispatch(&request("3", m, None)));
        assert_eq!(line, method_not_found_reply("3"));
        let body = line.trim_end_matches('\n');
        assert_eq!(canonical(body), body);
        let v: Value = serde_json::from_str(body).unwrap();
        assert_eq!(v["error"]["code"], -32601);
        assert_eq!(v["error"]["message"], "Method not found");
        assert_eq!(v["id"], 3);
    }
}

#[test]
fn tool_results_are_quoted_on_one_line() {
    let text = "{\n  \"a\": \"b\\c\"\t\u{1}\r\n}";
    let line = tool_result_reply("{\"k\":[1,2]}", text);
    assert!(line.ends_with('\n'));
    assert_eq!(line.matches('\n').count(), 1);
    let body = line.trim_end_matches('\n');
    assert_eq!(canonical(body), body);
    let v: Value = serde_json::from_str(body).unwrap();
    assert_eq!(v["result"]["content"][0]["text"], text);
    assert_eq!(v["id"]["k"][1], 2);
    assert!(body.contains("\\u0001"));
}

#[test]
fn blank_lines_are_skipped_and_others_trimmed() {
    assert_eq!(request_text("   \t\r\n"), None);
    assert_eq!(request_text(""), None);
    assert_eq!(request_text("\u{a0} {\"id\":1} \n"), Some("{\"id\":1}".to_string()));
}

#[test]
fn invariant_tool_checks_cockpit_under_home() {
    assert_eq!(
        invariant_tool_roots("/ws", "/home/u"),
        vec!["/ws".to_string(), "/home/u/spark-cockpit-rs".to_string()]
    );
}

#[test]
fn raw_lines_are_parsed_and_routed() {
    assert!(handle_line("").is_none());
    assert!(handle_line("   ").is_none());
    assert!(handle_line("not json").is_none());
    assert!(handle_line("{\"jsonrpc\":\"2.0\",\"method\":\"notifications/initialized\"}").is_none());
    let line = reply_of(handle_line("  {\"jsonrpc\":\"2.0\",\"id\":7,\"method\":\"bogus\"}\r").unwrap());
    assert_eq!(line, method_not_found_reply("7"));
    let v: Value = serde_json::from_str(line.trim_end()).unwrap();
    assert_eq!(v["id"], 7);
    assert_eq!(v["error"]["code"], -32601);
    // A request without an id is answered with a null id.
    let line = reply_of(handle_line("{\"method\":\"initialize\"}").unwrap());
    assert_eq!(line, initialize_reply("null"));
    // A JSON value that is not an object has no method.
    let line = reply_of(handle_line("[1,2]").unwrap());
    assert_eq!(line, method_not_found_reply("null"));
    // The id is written back in compact form.
    let line = reply_of(handle_line("{\"id\": {\"b\": [1, 2], \"a\": \"x\\ny\"}, \"method\": \"tools/list\"}").unwrap());
    assert_eq!(line, tools_list_reply("{\"a\":\"x\\ny\",\"b\":[1,2]}"));
    assert_eq!(line.matches('\n').count(), 1);
    match handle_line("{\"id\":\"q\",\"method\":\"tools/call\",\"params\":{\"name\":\"debug_scan\"}}") {
        Some(McpAction::RunTool { tool: ToolKind::FullScan, id_json }) => assert_eq!(id_json, "\"q\""),
        other => panic!("unexpected {:?}", other),
    }
}

#[test]
fn request_fields_follow_the_json() {
    assert!(parse_request("{").is_none());
    let q = parse_request("{\"id\":null,\"method\":3,\"params\":{\"name\":\"debug_scan\"}}").unwrap();
    assert_eq!(q.id_json, "null");
    assert_eq!(q.method, None);
    assert_eq!(q.tool_name, Some("debug_scan".to_string()));
    let q = parse_request("{\"method\":\"tools/call\",\"params\":[\"debug_scan\"]}").unwrap();
    assert_eq!(q.id_json, "null");
    assert_eq!(q.method, Some("tools/call".to_string()));
    assert_eq!(q.tool_name, None);
    let q = parse_request("{\"id\": 1.5e3, \"method\": \"x\"}").unwrap();
    assert_eq!(q.id_json, "1500.0");
    let q = parse_request("\"just a string\"").unwrap();
    assert_eq!((q.id_json.as_str(), q.method, q.tool_name), ("null", None, None));
}
