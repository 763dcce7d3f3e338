use soulsystem::session::{
    default_check_timeout, default_required, plan_start_task, session_id_or_fresh, McpCheckSpec,
    StartTaskArgs,
};

fn check(name: &str, command: &str, timeout_secs: u64) -> McpCheckSpec {
    McpCheckSpec {
        name: name.to_string(),
        command: command.to_string(),
        required: default_required(),
        timeout_secs,
    }
}

#[test]
fn check_defaults() {
    assert!(default_required());
    assert_eq!(default_check_timeout(), 300);
}

#[test]
fn stated_checks_are_converted_or_refused() {
    let ok = check("tests", "cargo test", 300).into_check_spec().ok().unwrap();
    assert_eq!(ok.name(), "tests");
    assert_eq!(ok.command(), "cargo test");
    assert!(ok.required());
    assert_eq!(ok.timeout_secs(), 300);
    assert!(check("", "x", 1).into_check_spec().is_err());
    assert!(check("x", "", 1).into_check_spec().is_err());
    assert!(check("x", "y", 0).into_check_spec().is_err());
}

#[test]
fn fresh_session_ids_are_mcp_uuids() {
    let bytes = [
        70, 235, 208, 238, 14, 109, 67, 201, 185, 13, 204, 195, 90, 145, 63, 62,
    ];
    let id = session_id_or_fresh(None, bytes);
    assert_eq!(id, "mcp-46ebd0ee-0e6d-43c9-b90d-ccc35a913f3e");
    let zeros = session_id_or_fresh(None, [0; 16]);
    assert_eq!(zeros, "mcp-00000000-0000-4000-8000-000000000000");
    let ones = session_id_or_fresh(None, [0xff; 16]);
    assert_eq!(ones, "mcp-ffffffff-ffff-4fff-bfff-ffffffffffff");
    assert_eq!(session_id_or_fresh(Some("s1".to_string()), bytes), "s1");
}

#[test]
fn a_start_plan_resolves_defaults() {
    let args = StartTaskArgs {
        prompt: "fix it".to_string(),
        checks: vec![check("tests", "cargo test", 60)],
        session_id: Some("s1".to_string()),
        base_revision: None,
    };
    let plan = plan_start_task(args, &"HEAD".to_string(), [0; 16]).ok().unwrap();
    assert_eq!(plan.prompt, "fix it");
    assert_eq!(plan.session_id, "s1");
    assert_eq!(plan.base_revision, "HEAD");
    assert_eq!(plan.checks.len(), 1);
    assert_eq!(plan.checks[0].timeout_secs(), 60);
}

#[test]
fn the_first_bad_check_is_reported() {
    let args = StartTaskArgs {
        prompt: "fix it".to_string(),
        checks: vec![check("a", "b", 1), check("c", "d", 0), check("", "e", 1)],
        session_id: None,
        base_revision: Some("main".to_string()),
    };
    assert_eq!(
        plan_start_task(args, &"HEAD".to_string(), [0; 16]).err().unwrap(),
        "check timeout must be at least one second"
    );
}

#[test]
fn an_unknown_session_is_named_in_the_error() {
    assert_eq!(
        soulsystem::session::session_not_found(&"mcp-1".to_string()),
        "session not found: mcp-1"
    );
}

#[test]
fn a_start_plan_without_a_session_id_makes_one_up() {
    let args = StartTaskArgs {
        prompt: "p".to_string(),
        checks: vec![check("t", "true", 1)],
        session_id: None,
        base_revision: Some("main".to_string()),
    };
    let plan = plan_start_task(args, &"HEAD".to_string(), [0x11; 16]).ok().unwrap();
    assert_eq!(plan.session_id, "mcp-11111111-1111-4111-9111-111111111111");
    assert_eq!(plan.base_revision, "main");
}
