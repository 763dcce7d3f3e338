use soulsystem::json::JsonValue;
use soulsystem::mcp::{
    negotiate_protocol_version, no_active_session, tool_call_response, ExecutionMode, McpReply,
    McpServer, McpServerError, SessionTool, MCP_LATEST_PROTOCOL_VERSION,
};
use soulsystem::schemas::CodingToolSchema;

fn text(s: &str) -> JsonValue {
    JsonValue::Str(s.to_string())
}

fn object(fields: Vec<(&str, JsonValue)>) -> JsonValue {
    JsonValue::Object(fields.into_iter().map(|(k, v)| (k.to_string(), v)).collect())
}

fn get<'a>(v: &'a JsonValue, key: &str) -> &'a JsonValue {
    match v {
        JsonValue::Object(fields) => {
            &fields.iter().find(|(k, _)| k == key).unwrap_or_else(|| panic!("no member {key}")).1
        }
        _ => panic!("not an object"),
    }
}

fn as_str(v: &JsonValue) -> &str {
    match v {
        JsonValue::Str(s) => s.as_str(),
        _ => panic!("not a string"),
    }
}

fn coding_tools() -> Vec<CodingToolSchema> {
    ["read_file", "write_file", "patch_file", "execute_shell"]
        .iter()
        .map(|n| CodingToolSchema {
            name: n.to_string(),
            description: format!("{n} in the task worktree"),
            parameters: object(vec![("type", text("object"))]),
        })
        .collect()
}

fn server() -> McpServer {
    match McpServer::new("HEAD".to_string(), ExecutionMode::Autonomous, coding_tools()) {
        Ok(s) => s,
        Err(_) => panic!("server refused"),
    }
}

fn respond(reply: McpReply) -> JsonValue {
    match reply {
        McpReply::Respond(v) => v,
        _ => panic!("expected a response"),
    }
}

fn initialize(server: &mut McpServer, version: &str) {
    let response = respond(server.handle_value(&object(vec![
        ("jsonrpc", text("2.0")),
        ("id", JsonValue::Int(1)),
        ("method", text("initialize")),
        (
            "params",
            object(vec![
                ("protocolVersion", text(version)),
                ("capabilities", object(vec![])),
                ("clientInfo", object(vec![("name", text("test")), ("version", text("1"))])),
            ]),
        ),
    ])));
    assert_eq!(as_str(get(get(&response, "result"), "protocolVersion")), version);
    assert!(matches!(
        server.handle_value(&object(vec![
            ("jsonrpc", text("2.0")),
            ("method", text("notifications/initialized")),
        ])),
        McpReply::Silent
    ));
}

#[test]
fn negotiates_supported_protocol_version() {
    let mut server = server();
    initialize(&mut server, "2025-11-25");
    assert!(server.is_initialized());
}

#[test]
fn falls_back_to_latest_for_unknown_protocol_version() {
    let mut server = server();
    let response = respond(server.handle_value(&object(vec![
        ("jsonrpc", text("2.0")),
        ("id", text("init")),
        ("method", text("initialize")),
        (
            "params",
            object(vec![
                ("protocolVersion", text("2099-01-01")),
                ("capabilities", object(vec![])),
                ("clientInfo", object(vec![("name", text("future")), ("version", text("1"))])),
            ]),
        ),
    ])));
    assert_eq!(
        as_str(get(get(&response, "result"), "protocolVersion")),
        MCP_LATEST_PROTOCOL_VERSION
    );
}

#[test]
fn lists_session_and_coding_tools_after_initialization() {
    let mut server = server();
    initialize(&mut server, MCP_LATEST_PROTOCOL_VERSION);
    let response = respond(server.handle_value(&object(vec![
        ("jsonrpc", text("2.0")),
        ("id", JsonValue::Int(2)),
        ("method", text("tools/list")),
        ("params", object(vec![])),
    ])));
    let tools = match get(get(&response, "result"), "tools") {
        JsonValue::Array(items) => items,
        _ => panic!("tools is not an array"),
    };
    let names: Vec<&str> = tools.iter().map(|t| as_str(get(t, "name"))).collect();
    assert!(names.contains(&"soul_start_task"));
    assert!(names.contains(&"soul_verify_task"));
    assert!(names.contains(&"read_file"));
    assert!(names.contains(&"write_file"));
    assert!(names.contains(&"patch_file"));
    assert!(names.contains(&"execute_shell"));
}

#[test]
fn coding_tool_requires_active_session() {
    let mut server = server();
    initialize(&mut server, MCP_LATEST_PROTOCOL_VERSION);
    let response = respond(server.handle_value(&object(vec![
        ("jsonrpc", text("2.0")),
        ("id", JsonValue::Int(3)),
        ("method", text("tools/call")),
        (
            "params",
            object(vec![
                ("name", text("read_file")),
                ("arguments", object(vec![("path", text("README.md"))])),
            ]),
        ),
    ])));
    assert!(matches!(get(get(&response, "result"), "isError"), JsonValue::Bool(true)));
    let content = match get(get(&response, "result"), "content") {
        JsonValue::Array(items) => items,
        _ => panic!("content is not an array"),
    };
    assert!(as_str(get(&content[0], "text")).contains("soul_start_task"));
}

#[test]
fn malformed_json_returns_parse_error() {
    let mut server = server();
    let parsed = serde_json::from_str::<serde_json::Value>("{not-json")
        .map(|_| JsonValue::Null)
        .map_err(|e| e.to_string());
    let response = respond(server.handle_line(parsed));
    assert!(matches!(get(get(&response, "error"), "code"), JsonValue::Int(-32700)));
    assert!(matches!(get(&response, "id"), JsonValue::Null));
}

#[test]
fn tools_are_refused_before_the_handshake() {
    let mut server = server();
    let response = respond(server.handle_value(&object(vec![
        ("jsonrpc", text("2.0")),
        ("id", JsonValue::Int(7)),
        ("method", text("tools/list")),
    ])));
    assert!(matches!(get(get(&response, "error"), "code"), JsonValue::Int(-32002)));
    assert!(matches!(get(&response, "id"), JsonValue::Int(7)));
    assert!(!server.is_initialized());
}

#[test]
fn initialized_notification_without_initialize_does_nothing() {
    let mut server = server();
    assert!(matches!(
        server.handle_value(&object(vec![
            ("jsonrpc", text("2.0")),
            ("method", text("notifications/initialized")),
        ])),
        McpReply::Silent
    ));
    assert!(!server.is_initialized());
}

#[test]
fn notifications_are_never_answered() {
    let mut server = server();
    for method in ["ping", "tools/list", "tools/call", "initialize", "no/such/method"] {
        assert!(matches!(
            server.handle_value(&object(vec![("jsonrpc", text("2.0")), ("method", text(method))])),
            McpReply::Silent
        ));
    }
    assert!(matches!(
        server.handle_value(&object(vec![("jsonrpc", text("1.0")), ("method", text("ping"))])),
        McpReply::Silent
    ));
}

#[test]
fn invalid_requests_and_unknown_methods_get_their_codes() {
    let mut server = server();
    let r = respond(server.handle_value(&JsonValue::Array(vec![])));
    assert!(matches!(get(get(&r, "error"), "code"), JsonValue::Int(-32600)));
    assert!(matches!(get(&r, "id"), JsonValue::Null));
    let r = respond(server.handle_value(&object(vec![
        ("jsonrpc", text("1.0")),
        ("id", JsonValue::Int(4)),
        ("method", text("ping")),
    ])));
    assert!(matches!(get(get(&r, "error"), "code"), JsonValue::Int(-32600)));
    let r = respond(server.handle_value(&object(vec![
        ("jsonrpc", text("2.0")),
        ("id", JsonValue::Int(5)),
        ("method", text("resources/list")),
    ])));
    assert!(matches!(get(get(&r, "error"), "code"), JsonValue::Int(-32601)));
    assert_eq!(as_str(get(get(get(&r, "error"), "data"), "method")), "resources/list");
    let r = respond(server.handle_value(&object(vec![
        ("jsonrpc", text("2.0")),
        ("id", JsonValue::Int(6)),
        ("method", text("initialize")),
    ])));
    assert!(matches!(get(get(&r, "error"), "code"), JsonValue::Int(-32602)));
}

#[test]
fn ping_answers_an_empty_result() {
    let mut server = server();
    let r = respond(server.handle_value(&object(vec![
        ("jsonrpc", text("2.0")),
        ("id", text("p")),
        ("method", text("ping")),
    ])));
    assert!(matches!(get(&r, "result"), JsonValue::Object(f) if f.is_empty()));
    assert_eq!(as_str(get(&r, "id")), "p");
    assert_eq!(as_str(get(&r, "jsonrpc")), "2.0");
}

fn call(server: &mut McpServer, name: &str, arguments: Option<JsonValue>) -> McpReply {
    let mut params = vec![("name", text(name))];
    if let Some(a) = arguments {
        params.push(("arguments", a));
    }
    server.handle_value(&object(vec![
        ("jsonrpc", text("2.0")),
        ("id", JsonValue::Int(9)),
        ("method", text("tools/call")),
        ("params", object(params)),
    ]))
}

#[test]
fn tool_calls_are_routed_by_session_state() {
    let mut server = server();
    initialize(&mut server, MCP_LATEST_PROTOCOL_VERSION);
    match call(&mut server, "soul_start_task", None) {
        McpReply::CallTool(t) => {
            assert_eq!(t.tool, SessionTool::StartTask);
            assert!(matches!(t.arguments, JsonValue::Object(ref f) if f.is_empty()));
            assert!(matches!(t.id, JsonValue::Int(9)));
        }
        _ => panic!("start should be handed to the host"),
    }
    server.begin_session();
    let r = respond(call(&mut server, "soul_start_task", None));
    assert!(matches!(get(get(&r, "result"), "isError"), JsonValue::Bool(true)));
    assert!(matches!(call(&mut server, "execute_shell", Some(object(vec![]))), McpReply::CallTool(_)));
    let r = respond(call(&mut server, "soul_delete_everything", None));
    assert_eq!(
        as_str(get(get(get(&r, "error"), "data"), "detail")),
        "unknown tool: soul_delete_everything"
    );
    let r = respond(call(&mut server, "soul_changes", Some(JsonValue::Null)));
    assert_eq!(
        as_str(get(get(get(&r, "error"), "data"), "detail")),
        "params.arguments must be an object"
    );
}

#[test]
fn the_server_refuses_interactive_mode_and_blank_revisions() {
    assert!(matches!(
        McpServer::new("HEAD".to_string(), ExecutionMode::Interactive, vec![]),
        Err(McpServerError::InteractiveStdio)
    ));
    assert!(matches!(
        McpServer::new(" \t\u{3000}".to_string(), ExecutionMode::Container, vec![]),
        Err(McpServerError::EmptyBaseRevision)
    ));
    let s = McpServer::new("main".to_string(), ExecutionMode::Container, vec![]).ok().unwrap();
    assert_eq!(s.default_base_revision(), "main");
    assert!(!s.has_active_session());
}

#[test]
fn negotiation_keeps_supported_revisions() {
    for v in ["2024-11-05", "2025-03-26", "2025-06-18", "2025-11-25"] {
        assert_eq!(negotiate_protocol_version(v), v);
    }
    assert_eq!(negotiate_protocol_version(""), "2025-11-25");
}

#[test]
fn tool_outcomes_become_tool_results() {
    let r = tool_call_response(JsonValue::Int(1), Err(no_active_session()));
    assert!(matches!(get(get(&r, "result"), "isError"), JsonValue::Bool(true)));
    let r = tool_call_response(JsonValue::Int(1), Ok("done".to_string()));
    assert!(matches!(get(get(&r, "result"), "isError"), JsonValue::Bool(false)));
}
