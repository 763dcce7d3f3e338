//! The tool catalogue the MCP server advertises.

use vstd::prelude::*;
use crate::json::{Json, JsonValue, obj, obj1, obj2, obj3, obj4, arr1, arr2, member, lemma_lookup_finds};

verus! {

/// A coding tool as the coding executor describes it: a name, a
/// description and the JSON schema of its parameters.
pub struct CodingToolSchema {
    pub name: String,
    pub description: String,
    pub parameters: JsonValue,
}

pub open spec fn jstr(s: Seq<char>) -> Json {
    Json::Str(s)
}

pub open spec fn min_len_string_model() -> Json {
    obj(seq![("type"@, jstr("string"@)), ("minLength"@, Json::Int(1))])
}

pub open spec fn no_arguments_model() -> Json {
    obj(seq![("type"@, jstr("object"@)), ("additionalProperties"@, Json::Bool(false))])
}

pub open spec fn check_item_model() -> Json {
    obj(
        seq![
            ("type"@, jstr("object"@)),
            (
                "properties"@,
                obj(
                    seq![
                        ("name"@, min_len_string_model()),
                        ("command"@, min_len_string_model()),
                        (
                            "required"@,
                            obj(seq![("type"@, jstr("boolean"@)), ("default"@, Json::Bool(true))]),
                        ),
                        (
                            "timeout_secs"@,
                            obj(
                                seq![
                                    ("type"@, jstr("integer"@)),
                                    ("minimum"@, Json::Int(1)),
                                    ("default"@, Json::Int(300)),
                                ],
                            ),
                        ),
                    ],
                ),
            ),
            ("required"@, Json::Array(seq![jstr("name"@), jstr("command"@)])),
            ("additionalProperties"@, Json::Bool(false)),
        ],
    )
}

pub open spec fn start_task_input_model() -> Json {
    obj(
        seq![
            ("type"@, jstr("object"@)),
            (
                "properties"@,
                obj(
                    seq![
                        ("prompt"@, min_len_string_model()),
                        (
                            "checks"@,
                            obj(
                                seq![
                                    ("type"@, jstr("array"@)),
                                    ("minItems"@, Json::Int(1)),
                                    ("items"@, check_item_model()),
                                ],
                            ),
                        ),
                        ("session_id"@, min_len_string_model()),
                        ("base_revision"@, min_len_string_model()),
                    ],
                ),
            ),
            ("required"@, Json::Array(seq![jstr("prompt"@), jstr("checks"@)])),
            ("additionalProperties"@, Json::Bool(false)),
        ],
    )
}

pub open spec fn resume_task_input_model() -> Json {
    obj(
        seq![
            ("type"@, jstr("object"@)),
            ("properties"@, obj(seq![("session_id"@, min_len_string_model())])),
            ("required"@, Json::Array(seq![jstr("session_id"@)])),
            ("additionalProperties"@, Json::Bool(false)),
        ],
    )
}

/// The advertised description of a tool.
pub open spec fn tool_schema_model(name: Seq<char>, description: Seq<char>, input: Json) -> Json {
    obj(seq![("name"@, jstr(name)), ("description"@, jstr(description)), ("inputSchema"@, input)])
}

pub open spec fn start_task_description() -> Seq<char> {
    "Create a persistent SoulSystem coding task in an isolated detached Git worktree. Call this before coding tools."@
}

pub open spec fn resume_task_description() -> Seq<char> {
    "Resume a previously persisted SoulSystem MCP coding task and its original detached worktree."@
}

pub open spec fn task_info_description() -> Seq<char> {
    "Return the active task, session identity, base revision, worktree, and last verification result."@
}

pub open spec fn changes_description() -> Seq<char> {
    "Collect the active worktree change set and reproducible diff hash."@
}

pub open spec fn verify_task_description() -> Seq<char> {
    "Run the declared acceptance checks and canonical evidence-based completion gate for the active task."@
}

/// The five task-session tools, in the order they are advertised.
pub open spec fn session_tool_schemas() -> Seq<Json> {
    seq![
        tool_schema_model("soul_start_task"@, start_task_description(), start_task_input_model()),
        tool_schema_model("soul_resume_task"@, resume_task_description(), resume_task_input_model()),
        tool_schema_model("soul_task_info"@, task_info_description(), no_arguments_model()),
        tool_schema_model("soul_changes"@, changes_description(), no_arguments_model()),
        tool_schema_model("soul_verify_task"@, verify_task_description(), no_arguments_model()),
    ]
}

/// The advertised form of a coding tool.
pub open spec fn coding_schema_model(c: CodingToolSchema) -> Json {
    tool_schema_model(c.name@, c.description@, c.parameters@)
}

/// The full catalogue: the session tools followed by the coding tools.
pub open spec fn mcp_tool_schemas_model(coding: Seq<CodingToolSchema>) -> Seq<Json> {
    session_tool_schemas() + coding.map_values(|c: CodingToolSchema| coding_schema_model(c))
}

/// An advertised tool names itself, describes itself and gives its input
/// schema under `name`, `description` and `inputSchema`.
proof fn lemma_tool_schema_members(name: Seq<char>, description: Seq<char>, input: Json)
    ensures
        member(tool_schema_model(name, description, input), "name"@) == Some(Json::Str(name)),
        member(tool_schema_model(name, description, input), "description"@) == Some(
            Json::Str(description),
        ),
        member(tool_schema_model(name, description, input), "inputSchema"@) == Some(input),
{
    reveal_strlit("name");
    reveal_strlit("description");
    reveal_strlit("inputSchema");
    assert("name"@[0] != "description"@[0]);
    assert("name"@[0] != "inputSchema"@[0]);
    assert("description"@[0] != "inputSchema"@[0]);
    let fields = seq![("name"@, jstr(name)), ("description"@, jstr(description)), ("inputSchema"@, input)];
    lemma_lookup_finds(fields, "name"@, 0);
    lemma_lookup_finds(fields, "description"@, 1);
    lemma_lookup_finds(fields, "inputSchema"@, 2);
}

/// The catalogue lists every tool and drops none: first the five session
/// tools, `soul_start_task`, `soul_resume_task`, `soul_task_info`,
/// `soul_changes` and `soul_verify_task`, then each coding tool in the order
/// given, with its own name, description and parameter schema.
pub proof fn lemma_catalogue_lists_every_tool(coding: Seq<CodingToolSchema>)
    ensures
        mcp_tool_schemas_model(coding).len() == 5 + coding.len(),
        member(mcp_tool_schemas_model(coding)[0], "name"@) == Some(Json::Str("soul_start_task"@)),
        member(mcp_tool_schemas_model(coding)[1], "name"@) == Some(Json::Str("soul_resume_task"@)),
        member(mcp_tool_schemas_model(coding)[2], "name"@) == Some(Json::Str("soul_task_info"@)),
        member(mcp_tool_schemas_model(coding)[3], "name"@) == Some(Json::Str("soul_changes"@)),
        member(mcp_tool_schemas_model(coding)[4], "name"@) == Some(Json::Str("soul_verify_task"@)),
        forall|j: int|
            0 <= j < coding.len() ==> {
                &&& member(#[trigger] mcp_tool_schemas_model(coding)[5 + j], "name"@) == Some(
                    Json::Str(coding[j].name@),
                )
                &&& member(mcp_tool_schemas_model(coding)[5 + j], "description"@) == Some(
                    Json::Str(coding[j].description@),
                )
                &&& member(mcp_tool_schemas_model(coding)[5 + j], "inputSchema"@) == Some(
                    coding[j].parameters@,
                )
            },
{
    let cat = mcp_tool_schemas_model(coding);
    lemma_tool_schema_members("soul_start_task"@, start_task_description(), start_task_input_model());
    lemma_tool_schema_members("soul_resume_task"@, resume_task_description(), resume_task_input_model());
    lemma_tool_schema_members("soul_task_info"@, task_info_description(), no_arguments_model());
    lemma_tool_schema_members("soul_changes"@, changes_description(), no_arguments_model());
    lemma_tool_schema_members("soul_verify_task"@, verify_task_description(), no_arguments_model());
    assert forall|j: int| 0 <= j < coding.len() implies {
        &&& member(#[trigger] cat[5 + j], "name"@) == Some(Json::Str(coding[j].name@))
        &&& member(cat[5 + j], "description"@) == Some(Json::Str(coding[j].description@))
        &&& member(cat[5 + j], "inputSchema"@) == Some(coding[j].parameters@)
    } by {
        assert(cat[5 + j] == coding_schema_model(coding[j]));
        lemma_tool_schema_members(coding[j].name@, coding[j].description@, coding[j].parameters@);
    }
}

fn min_len_string() -> (r: JsonValue)
    ensures
        r@ == min_len_string_model(),
{
    obj2("type", JsonValue::text("string"), "minLength", JsonValue::Int(1))
}

fn no_arguments() -> (r: JsonValue)
    ensures
        r@ == no_arguments_model(),
{
    obj2("type", JsonValue::text("object"), "additionalProperties", JsonValue::Bool(false))
}

fn check_item() -> (r: JsonValue)
    ensures
        r@ == check_item_model(),
{
    let required = obj2("type", JsonValue::text("boolean"), "default", JsonValue::Bool(true));
    let timeout = obj3(
        "type",
        JsonValue::text("integer"),
        "minimum",
        JsonValue::Int(1),
        "default",
        JsonValue::Int(300),
    );
    let properties = obj4(
        "name",
        min_len_string(),
        "command",
        min_len_string(),
        "required",
        required,
        "timeout_secs",
        timeout,
    );
    obj4(
        "type",
        JsonValue::text("object"),
        "properties",
        properties,
        "required",
        arr2(JsonValue::text("name"), JsonValue::text("command")),
        "additionalProperties",
        JsonValue::Bool(false),
    )
}

fn start_task_input() -> (r: JsonValue)
    ensures
        r@ == start_task_input_model(),
{
    let checks = obj3(
        "type",
        JsonValue::text("array"),
        "minItems",
        JsonValue::Int(1),
        "items",
        check_item(),
    );
    let properties = obj4(
        "prompt",
        min_len_string(),
        "checks",
        checks,
        "session_id",
        min_len_string(),
        "base_revision",
        min_len_string(),
    );
    obj4(
        "type",
        JsonValue::text("object"),
        "properties",
        properties,
        "required",
        arr2(JsonValue::text("prompt"), JsonValue::text("checks")),
        "additionalProperties",
        JsonValue::Bool(false),
    )
}

fn resume_task_input() -> (r: JsonValue)
    ensures
        r@ == resume_task_input_model(),
{
    obj4(
        "type",
        JsonValue::text("object"),
        "properties",
        obj1("session_id", min_len_string()),
        "required",
        arr1(JsonValue::text("session_id")),
        "additionalProperties",
        JsonValue::Bool(false),
    )
}

fn tool_schema(name: &str, description: &str, input: JsonValue) -> (r: JsonValue)
    ensures
        r@ == tool_schema_model(name@, description@, input@),
{
    obj3(
        "name",
        JsonValue::text(name),
        "description",
        JsonValue::text(description),
        "inputSchema",
        input,
    )
}

/// The catalogue answered to `tools/list`: the five task-session tools
/// followed by every coding tool, in the order given.
pub fn mcp_tool_schemas(coding: Vec<CodingToolSchema>) -> (r: Vec<JsonValue>)
    ensures
        r@.len() == 5 + coding@.len(),
        forall|i: int| 0 <= i < r@.len() ==> #[trigger] r@[i]@ == mcp_tool_schemas_model(coding@)[i],
{
    let mut tools: Vec<JsonValue> = Vec::new();
    tools.push(
        tool_schema(
            "soul_start_task",
            "Create a persistent SoulSystem coding task in an isolated detached Git worktree. Call this before coding tools.",
            start_task_input(),
        ),
    );
    tools.push(
        tool_schema(
            "soul_resume_task",
            "Resume a previously persisted SoulSystem MCP coding task and its original detached worktree.",
            resume_task_input(),
        ),
    );
    tools.push(
        tool_schema(
            "soul_task_info",
            "Return the active task, session identity, base revision, worktree, and last verification result.",
            no_arguments(),
        ),
    );
    tools.push(
        tool_schema(
            "soul_changes",
            "Collect the active worktree change set and reproducible diff hash.",
            no_arguments(),
        ),
    );
    tools.push(
        tool_schema(
            "soul_verify_task",
            "Run the declared acceptance checks and canonical evidence-based completion gate for the active task.",
            no_arguments(),
        ),
    );
    let ghost model = mcp_tool_schemas_model(coding@);
    assert(forall|i: int| 0 <= i < 5 ==> #[trigger] tools@[i]@ == model[i]);
    let mut rest = coding;
    let total = rest.len();
    let ghost all = rest@;
    assert(all.len() == total);
    let mut taken: usize = 0;
    while rest.len() > 0
        invariant
            all.len() == taken + rest@.len(),
            all.len() <= usize::MAX,
            rest@ == all.subrange(taken as int, all.len() as int),
            tools@.len() == 5 + taken,
            model == mcp_tool_schemas_model(all),
            forall|i: int| 0 <= i < tools@.len() ==> #[trigger] tools@[i]@ == model[i],
        decreases rest.len(),
    {
        let c = rest.remove(0);
        let schema = obj3(
            "name",
            JsonValue::Str(c.name),
            "description",
            JsonValue::Str(c.description),
            "inputSchema",
            c.parameters,
        );
        tools.push(schema);
        taken = taken + 1;
        assert(rest@ =~= all.subrange(taken as int, all.len() as int));
    }
    tools
}

} // verus!
