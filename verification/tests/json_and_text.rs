use soulsystem::json::{arr2, obj2, JsonValue};
use soulsystem::mcp::{error_response, initialize_result, success_response, tool_result, text_is};
use soulsystem::schemas::{mcp_tool_schemas, CodingToolSchema};
use soulsystem::text::{chars_of, is_blank, is_whitespace, push_decimal, strip_line_end};

fn keys(v: &JsonValue) -> Vec<String> {
    match v {
        JsonValue::Object(fields) => fields.iter().map(|(k, _)| k.clone()).collect(),
        _ => panic!("not an object"),
    }
}

fn member<'a>(v: &'a JsonValue, key: &str) -> Option<&'a JsonValue> {
    v.get(key)
}

#[test]
fn members_are_found_by_name() {
    let v = obj2("a", JsonValue::Int(1), "b", JsonValue::Str("x".to_string()));
    assert!(matches!(member(&v, "a"), Some(JsonValue::Int(1))));
    assert!(matches!(member(&v, "b").and_then(|b| b.as_text()), Some(s) if s == "x"));
    assert!(member(&v, "c").is_none());
    assert!(JsonValue::Null.get("a").is_none());
    assert!(v.is_object());
    assert!(!arr2(JsonValue::Null, JsonValue::Null).is_object());
}

#[test]
fn a_duplicate_is_an_equal_tree() {
    let v = obj2(
        "list",
        arr2(JsonValue::Number("1.5".to_string()), JsonValue::Bool(true)),
        "inner",
        obj2("k", JsonValue::Str("v".to_string()), "n", JsonValue::Null),
    );
    let d = v.duplicate();
    assert_eq!(format!("{:?}", keys(&d)), format!("{:?}", keys(&v)));
    match member(&d, "list") {
        Some(JsonValue::Array(items)) => {
            assert!(matches!(&items[0], JsonValue::Number(n) if n == "1.5"));
            assert!(matches!(items[1], JsonValue::Bool(true)));
        }
        _ => panic!("list lost"),
    }
    assert!(matches!(member(member(&d, "inner").unwrap(), "k"), Some(JsonValue::Str(s)) if s == "v"));
}

#[test]
fn responses_have_the_json_rpc_shape() {
    let ok = success_response(JsonValue::Int(4), JsonValue::Bool(true));
    assert_eq!(keys(&ok), vec!["jsonrpc", "id", "result"]);
    let err = error_response(JsonValue::Null, -32601, "Method not found", None);
    assert_eq!(keys(&err), vec!["jsonrpc", "id", "error"]);
    assert_eq!(keys(member(&err, "error").unwrap()), vec!["code", "message"]);
    let with_data = error_response(JsonValue::Int(1), -32602, "Invalid params", Some(JsonValue::Null));
    assert_eq!(keys(member(&with_data, "error").unwrap()), vec!["code", "message", "data"]);
    let result = tool_result("hello".to_string(), false);
    assert_eq!(keys(&result), vec!["content", "isError"]);
}

#[test]
fn the_initialize_result_names_the_server() {
    let r = initialize_result("2025-06-18");
    assert_eq!(keys(&r), vec!["protocolVersion", "capabilities", "serverInfo", "instructions"]);
    let info = member(&r, "serverInfo").unwrap();
    assert!(matches!(member(info, "name"), Some(JsonValue::Str(n)) if n == "soul-coding"));
}

#[test]
fn the_catalogue_lists_session_tools_first() {
    let coding = vec![CodingToolSchema {
        name: "read_file".to_string(),
        description: "read".to_string(),
        parameters: JsonValue::Null,
    }];
    let tools = mcp_tool_schemas(coding);
    let names: Vec<String> = tools
        .iter()
        .map(|t| t.get("name").and_then(|n| n.as_text()).unwrap().clone())
        .collect();
    assert_eq!(
        names,
        vec!["soul_start_task", "soul_resume_task", "soul_task_info", "soul_changes", "soul_verify_task", "read_file"]
    );
    assert_eq!(keys(&tools[5]), vec!["name", "description", "inputSchema"]);
    let start = tools[0].get("inputSchema").unwrap();
    let required = start.get("required").unwrap();
    assert!(matches!(required, JsonValue::Array(items) if items.len() == 2));
}

#[test]
fn line_ends_are_stripped() {
    assert_eq!(strip_line_end("{\"a\":1}\r\n"), "{\"a\":1}");
    assert_eq!(strip_line_end("x\n\n"), "x");
    assert_eq!(strip_line_end("x \n"), "x ");
    assert_eq!(strip_line_end(""), "");
}

#[test]
fn blank_text_is_white_space_only() {
    assert!(is_blank(""));
    assert!(is_blank(" \t\n\u{a0}\u{2003}"));
    assert!(!is_blank(" HEAD "));
    assert!(is_whitespace('\u{3000}'));
    assert!(!is_whitespace('\u{200b}'));
}

#[test]
fn text_helpers_agree_with_std() {
    assert_eq!(chars_of("h\u{e9}llo"), "h\u{e9}llo".chars().collect::<Vec<_>>());
    assert!(text_is("2.0", "2.0"));
    assert!(!text_is("2.0", "2.00"));
    let mut s = String::from("port ");
    push_decimal(&mut s, 9999);
    assert_eq!(s, "port 9999");
    let mut z = String::new();
    push_decimal(&mut z, 0);
    assert_eq!(z, "0");
    let mut big = String::new();
    push_decimal(&mut big, u64::MAX);
    assert_eq!(big, u64::MAX.to_string());
}
