//! The Model Context Protocol (MCP) JSON-RPC adapter: protocol negotiation,
//! the request dispatch table, and the responses it produces.

use vstd::prelude::*;
use crate::json::{
    Json, JsonValue, field_models, json_models, obj, obj1, obj2, obj4, member, member_of, text_of,
    opt_model, duplicate_all, lemma_lookup_finds,
};
use crate::text::is_blank;
use crate::text::is_blank_text;
use crate::schemas::{CodingToolSchema, mcp_tool_schemas, mcp_tool_schemas_model};

verus! {

/// The newest protocol revision this server speaks.
pub const MCP_LATEST_PROTOCOL_VERSION: &'static str = "2025-11-25";

/// The protocol revisions this server accepts, oldest first.
pub open spec fn supported_protocol_versions() -> Seq<Seq<char>> {
    seq!["2024-11-05"@, "2025-03-26"@, "2025-06-18"@, MCP_LATEST_PROTOCOL_VERSION@]
}

/// The revision answered to a client that asked for `requested`: the same
/// revision when it is supported, the newest one otherwise.
pub open spec fn negotiated_version(requested: Seq<char>) -> Seq<char> {
    if supported_protocol_versions().contains(requested) {
        requested
    } else {
        MCP_LATEST_PROTOCOL_VERSION@
    }
}

/// Whether `s` holds exactly the characters of `lit`.
pub fn text_is(s: &str, lit: &str) -> (r: bool)
    ensures
        r == (s@ == lit@),
{
    String::from_str(s) == String::from_str(lit)
}

/// Picks the protocol revision to answer an `initialize` request with.
pub fn negotiate_protocol_version(requested: &str) -> (r: &'static str)
    ensures
        r@ == negotiated_version(requested@),
{
    let ghost versions = supported_protocol_versions();
    if text_is(requested, "2024-11-05") {
        assert(versions[0] == requested@);
        "2024-11-05"
    } else if text_is(requested, "2025-03-26") {
        assert(versions[1] == requested@);
        "2025-03-26"
    } else if text_is(requested, "2025-06-18") {
        assert(versions[2] == requested@);
        "2025-06-18"
    } else if text_is(requested, MCP_LATEST_PROTOCOL_VERSION) {
        assert(versions[3] == requested@);
        MCP_LATEST_PROTOCOL_VERSION
    } else {
        assert(!versions.contains(requested@));
        MCP_LATEST_PROTOCOL_VERSION
    }
}

/// A JSON-RPC 2.0 message for request `id` whose third member is `key`.
pub open spec fn envelope(id: Json, key: Seq<char>, body: Json) -> Json {
    obj(seq![("jsonrpc"@, Json::Str("2.0"@)), ("id"@, id), (key, body)])
}

/// The model of a JSON-RPC success response.
pub open spec fn success_model(id: Json, result: Json) -> Json {
    envelope(id, "result"@, result)
}

/// The model of the `error` member of a JSON-RPC error response.
pub open spec fn error_body_model(code: int, message: Seq<char>, data: Option<Json>) -> Json {
    let base = seq![("code"@, Json::Int(code)), ("message"@, Json::Str(message))];
    match data {
        Some(d) => obj(base.push(("data"@, d))),
        None => obj(base),
    }
}

/// The model of a JSON-RPC error response.
pub open spec fn error_model(id: Json, code: int, message: Seq<char>, data: Option<Json>) -> Json {
    envelope(id, "error"@, error_body_model(code, message, data))
}

/// The model of the result of a tool call that produced `text`.
pub open spec fn tool_result_model(text: Seq<char>, is_error: bool) -> Json {
    obj(
        seq![
            (
                "content"@,
                Json::Array(seq![obj(seq![("type"@, Json::Str("text"@)), ("text"@, Json::Str(text))])]),
            ),
            ("isError"@, Json::Bool(is_error)),
        ],
    )
}

/// The model of an object with the single member `detail`.
pub open spec fn detail_model(detail: Seq<char>) -> Json {
    obj(seq![("detail"@, Json::Str(detail))])
}

/// The model of an optional document.
pub open spec fn opt_json(v: Option<JsonValue>) -> Option<Json> {
    match v {
        Some(x) => Some(x@),
        None => None,
    }
}

/// A JSON-RPC success response carrying `result` for request `id`.
pub fn success_response(id: JsonValue, result: JsonValue) -> (r: JsonValue)
    ensures
        r@ == success_model(id@, result@),
{
    let fields = vec![
        JsonValue::entry("jsonrpc", JsonValue::text("2.0")),
        JsonValue::entry("id", id),
        JsonValue::entry("result", result),
    ];
    let r = JsonValue::object(fields);
    assert(field_models(fields@) =~= seq![
        ("jsonrpc"@, Json::Str("2.0"@)),
        ("id"@, id@),
        ("result"@, result@),
    ]);
    r
}

/// A JSON-RPC error response for request `id`.
pub fn error_response(id: JsonValue, code: i64, message: &str, data: Option<JsonValue>) -> (r: JsonValue)
    ensures
        r@ == error_model(id@, code as int, message@, opt_json(data)),
{
    let mut body = vec![
        JsonValue::entry("code", JsonValue::Int(code)),
        JsonValue::entry("message", JsonValue::text(message)),
    ];
    match data {
        Some(d) => {
            body.push(JsonValue::entry("data", d));
        },
        None => {},
    }
    let error = JsonValue::object(body);
    let ghost base = seq![("code"@, Json::Int(code as int)), ("message"@, Json::Str(message@))];
    assert(error@ == error_body_model(code as int, message@, opt_json(data))) by {
        match data {
            Some(d) => {
                assert(field_models(body@) =~= base.push(("data"@, d@)));
            },
            None => {
                assert(field_models(body@) =~= base);
            },
        }
    }
    let fields = vec![
        JsonValue::entry("jsonrpc", JsonValue::text("2.0")),
        JsonValue::entry("id", id),
        JsonValue::entry("error", error),
    ];
    let r = JsonValue::object(fields);
    assert(field_models(fields@) =~= seq![
        ("jsonrpc"@, Json::Str("2.0"@)),
        ("id"@, id@),
        ("error"@, error@),
    ]);
    r
}

/// The result of a tool call: `text` as a single text item, flagged as an
/// error when `is_error` holds.
pub fn tool_result(text: String, is_error: bool) -> (r: JsonValue)
    ensures
        r@ == tool_result_model(text@, is_error),
{
    let ghost t = text@;
    let item_fields = vec![
        JsonValue::entry("type", JsonValue::text("text")),
        JsonValue::entry("text", JsonValue::Str(text)),
    ];
    let item = JsonValue::object(item_fields);
    assert(field_models(item_fields@) =~= seq![("type"@, Json::Str("text"@)), ("text"@, Json::Str(t))]);
    let items = vec![item];
    let content = JsonValue::array(items);
    assert(json_models(items@) =~= seq![item@]);
    let fields = vec![
        JsonValue::entry("content", content),
        JsonValue::entry("isError", JsonValue::Bool(is_error)),
    ];
    let r = JsonValue::object(fields);
    assert(field_models(fields@) =~= seq![("content"@, content@), ("isError"@, Json::Bool(is_error))]);
    r
}

/// An object with the single member `detail` holding `detail`.
pub fn detail_object(text: String) -> (r: JsonValue)
    ensures
        r@ == detail_model(text@),
{
    let ghost d = text@;
    let fields = vec![JsonValue::entry("detail", JsonValue::Str(text))];
    let r = JsonValue::object(fields);
    assert(field_models(fields@) =~= seq![("detail"@, Json::Str(d))]);
    r
}

/// The answer to a request that arrived before the `initialized`
/// notification.
pub fn not_initialized(id: JsonValue) -> (r: JsonValue)
    ensures
        r@ == error_model(id@, -32002, "Server not initialized"@, None),
{
    error_response(id, -32002, "Server not initialized", None)
}

/// The text of the error given when a task tool is called with no active
/// session.
pub open spec fn no_active_session_text() -> Seq<char> {
    "no active SoulSystem coding task; call soul_start_task or soul_resume_task first"@
}

/// The error text for a task tool called while no session is active.
pub fn no_active_session() -> (r: String)
    ensures
        r@ == no_active_session_text(),
{
    String::from_str("no active SoulSystem coding task; call soul_start_task or soul_resume_task first")
}

/// The name this server reports in `serverInfo`.
pub const SERVER_NAME: &'static str = "soul-coding";

/// The version this server reports in `serverInfo`.
pub const SERVER_VERSION: &'static str = "0.1.0";

/// The usage note sent with the `initialize` result.
pub const SERVER_INSTRUCTIONS: &'static str = "Start or resume a SoulSystem task before using coding tools. All mutations occur in the task's detached Git worktree; call soul_verify_task for evidence-based completion.";

/// The refusal of `soul_start_task` while a session is active.
pub const START_WHILE_ACTIVE: &'static str = "an MCP coding session is already active; restart the server or finish the current session";

/// The refusal of `soul_resume_task` while a session is active.
pub const RESUME_WHILE_ACTIVE: &'static str = "an MCP coding session is already active; restart the server before resuming another session";

/// How tool calls that need approval are decided.
#[derive(Clone, Copy, Debug, PartialEq, Eq, Structural)]
pub enum ExecutionMode {
    /// A human approves on the terminal.
    Interactive,
    /// Critical actions are blocked; the rest runs.
    Autonomous,
    /// Everything runs inside a container.
    Container,
}

/// The approval modes the stdio entry point offers. Interactive approval
/// is not among them: MCP owns stdin.
#[derive(Clone, Copy, Debug, PartialEq, Eq, Structural)]
pub enum ModeArg {
    Autonomous,
    Container,
}

impl ModeArg {
    /// The execution mode this choice selects; never `Interactive`.
    pub fn execution_mode(self) -> (r: ExecutionMode)
        ensures
            r == match self {
                ModeArg::Autonomous => ExecutionMode::Autonomous,
                ModeArg::Container => ExecutionMode::Container,
            },
            r != ExecutionMode::Interactive,
    {
        match self {
            ModeArg::Autonomous => ExecutionMode::Autonomous,
            ModeArg::Container => ExecutionMode::Container,
        }
    }
}

/// Why an MCP server could not be set up.
pub enum McpServerError {
    /// Interactive approval needs stdin, which the JSON-RPC stream owns.
    InteractiveStdio,
    /// The default base revision was empty or only white space.
    EmptyBaseRevision,
    /// The session store could not be opened (its message).
    Session(String),
    /// An I/O failure (its message).
    Io(String),
    /// A JSON encoding failure (its message).
    Json(String),
}

/// The text of an `InteractiveStdio` error.
pub open spec fn interactive_stdio_text() -> Seq<char> {
    "MCP stdio cannot use interactive approval because stdin is reserved for JSON-RPC"@
}

/// The text of an `EmptyBaseRevision` error.
pub open spec fn empty_base_revision_text() -> Seq<char> {
    "default base revision cannot be empty"@
}

impl McpServerError {
    /// The human-readable text of this error.
    pub fn message(&self) -> (r: String)
        ensures
            match self {
                McpServerError::InteractiveStdio => r@ == interactive_stdio_text(),
                McpServerError::EmptyBaseRevision => r@ == empty_base_revision_text(),
                McpServerError::Session(m) => r@ == m@,
                McpServerError::Io(m) => r@ == m@,
                McpServerError::Json(m) => r@ == m@,
            },
    {
        match self {
            McpServerError::InteractiveStdio => String::from_str(
                "MCP stdio cannot use interactive approval because stdin is reserved for JSON-RPC",
            ),
            McpServerError::EmptyBaseRevision => String::from_str(
                "default base revision cannot be empty",
            ),
            McpServerError::Session(m) => m.clone(),
            McpServerError::Io(m) => m.clone(),
            McpServerError::Json(m) => m.clone(),
        }
    }
}

/// The tools a `tools/call` request can name.
#[derive(Clone, Copy, Debug, PartialEq, Eq, Structural)]
pub enum SessionTool {
    StartTask,
    ResumeTask,
    TaskInfo,
    Changes,
    VerifyTask,
    ReadFile,
    WriteFile,
    PatchFile,
    ExecuteShell,
}

/// The wire name of each tool.
pub open spec fn tool_name(t: SessionTool) -> Seq<char> {
    match t {
        SessionTool::StartTask => "soul_start_task"@,
        SessionTool::ResumeTask => "soul_resume_task"@,
        SessionTool::TaskInfo => "soul_task_info"@,
        SessionTool::Changes => "soul_changes"@,
        SessionTool::VerifyTask => "soul_verify_task"@,
        SessionTool::ReadFile => "read_file"@,
        SessionTool::WriteFile => "write_file"@,
        SessionTool::PatchFile => "patch_file"@,
        SessionTool::ExecuteShell => "execute_shell"@,
    }
}

/// The tool a wire name designates, if any.
pub open spec fn tool_named(name: Seq<char>) -> Option<SessionTool> {
    if name == "soul_start_task"@ {
        Some(SessionTool::StartTask)
    } else if name == "soul_resume_task"@ {
        Some(SessionTool::ResumeTask)
    } else if name == "soul_task_info"@ {
        Some(SessionTool::TaskInfo)
    } else if name == "soul_changes"@ {
        Some(SessionTool::Changes)
    } else if name == "soul_verify_task"@ {
        Some(SessionTool::VerifyTask)
    } else if name == "read_file"@ {
        Some(SessionTool::ReadFile)
    } else if name == "write_file"@ {
        Some(SessionTool::WriteFile)
    } else if name == "patch_file"@ {
        Some(SessionTool::PatchFile)
    } else if name == "execute_shell"@ {
        Some(SessionTool::ExecuteShell)
    } else {
        None
    }
}

/// Whether the tool works on the active session (all but the two that
/// open one).
pub open spec fn needs_session(t: SessionTool) -> bool {
    t != SessionTool::StartTask && t != SessionTool::ResumeTask
}

impl SessionTool {
    /// The wire name of this tool.
    pub fn name(&self) -> (r: &'static str)
        ensures
            r@ == tool_name(*self),
    {
        match self {
            SessionTool::StartTask => "soul_start_task",
            SessionTool::ResumeTask => "soul_resume_task",
            SessionTool::TaskInfo => "soul_task_info",
            SessionTool::Changes => "soul_changes",
            SessionTool::VerifyTask => "soul_verify_task",
            SessionTool::ReadFile => "read_file",
            SessionTool::WriteFile => "write_file",
            SessionTool::PatchFile => "patch_file",
            SessionTool::ExecuteShell => "execute_shell",
        }
    }

    /// The tool a wire name designates, if any.
    pub fn named(name: &str) -> (r: Option<SessionTool>)
        ensures
            r == tool_named(name@),
    {
        if text_is(name, "soul_start_task") {
            Some(SessionTool::StartTask)
        } else if text_is(name, "soul_resume_task") {
            Some(SessionTool::ResumeTask)
        } else if text_is(name, "soul_task_info") {
            Some(SessionTool::TaskInfo)
        } else if text_is(name, "soul_changes") {
            Some(SessionTool::Changes)
        } else if text_is(name, "soul_verify_task") {
            Some(SessionTool::VerifyTask)
        } else if text_is(name, "read_file") {
            Some(SessionTool::ReadFile)
        } else if text_is(name, "write_file") {
            Some(SessionTool::WriteFile)
        } else if text_is(name, "patch_file") {
            Some(SessionTool::PatchFile)
        } else if text_is(name, "execute_shell") {
            Some(SessionTool::ExecuteShell)
        } else {
            None
        }
    }
}

/// The protocol state of a server: whether `initialize` was answered,
/// whether the client confirmed with `notifications/initialized`, whether
/// a task session is active, and the tool catalogue it advertises.
pub struct McpState {
    pub negotiated: bool,
    pub initialized: bool,
    pub active: bool,
    pub tools: Seq<Json>,
}

/// What the server does with one message (model).
pub enum Reply {
    /// Nothing is sent back.
    Silent,
    /// The response to send.
    Respond(Json),
    /// The named tool is to be run for request `id` with `arguments`.
    CallTool(Json, SessionTool, Json),
}

/// A tool run the dispatcher asks its host to perform.
pub struct ToolRequest {
    pub id: JsonValue,
    pub tool: SessionTool,
    pub arguments: JsonValue,
}

/// What the server does with one message.
pub enum McpReply {
    Silent,
    Respond(JsonValue),
    CallTool(ToolRequest),
}

pub open spec fn reply_model(r: McpReply) -> Reply {
    match r {
        McpReply::Silent => Reply::Silent,
        McpReply::Respond(v) => Reply::Respond(v@),
        McpReply::CallTool(t) => Reply::CallTool(t.id@, t.tool, t.arguments@),
    }
}

/// The `id` of a request, `null` for a notification.
pub open spec fn request_id(msg: Json) -> Json {
    match member(msg, "id"@) {
        Some(id) => id,
        None => Json::Null,
    }
}

/// A message without an `id` is a notification and gets no answer.
pub open spec fn is_notification(msg: Json) -> bool {
    member(msg, "id"@) is None
}

/// The member `key` of the `params` of a message.
pub open spec fn param(msg: Json, key: Seq<char>) -> Option<Json> {
    member_of(member(msg, "params"@), key)
}

/// The result of a successful `initialize`.
pub open spec fn initialize_result_model(version: Seq<char>) -> Json {
    obj(
        seq![
            ("protocolVersion"@, Json::Str(version)),
            (
                "capabilities"@,
                obj(seq![("tools"@, obj(seq![("listChanged"@, Json::Bool(false))]))]),
            ),
            (
                "serverInfo"@,
                obj(seq![("name"@, Json::Str(SERVER_NAME@)), ("version"@, Json::Str(SERVER_VERSION@))]),
            ),
            ("instructions"@, Json::Str(SERVER_INSTRUCTIONS@)),
        ],
    )
}

/// The `Invalid params` error with a `detail` text.
pub open spec fn invalid_params_model(id: Json, detail: Seq<char>) -> Json {
    error_model(id, -32602, "Invalid params"@, Some(detail_model(detail)))
}

/// The answer to a tool call that failed with `text`.
pub open spec fn tool_error_model(id: Json, text: Seq<char>) -> Json {
    success_model(id, tool_result_model(text, true))
}

/// How a `tools/call` request is answered once the server is initialized.
pub open spec fn tool_call_reply(s: McpState, id: Json, msg: Json) -> Reply {
    match text_of(param(msg, "name"@)) {
        None => Reply::Respond(invalid_params_model(id, "tools/call requires params.name"@)),
        Some(name) => {
            let arguments = match param(msg, "arguments"@) {
                Some(a) => a,
                None => obj(seq![]),
            };
            if !(arguments is Object) {
                Reply::Respond(invalid_params_model(id, "params.arguments must be an object"@))
            } else {
                match tool_named(name) {
                    None => Reply::Respond(invalid_params_model(id, "unknown tool: "@ + name)),
                    Some(t) => {
                        if t == SessionTool::StartTask && s.active {
                            Reply::Respond(tool_error_model(id, START_WHILE_ACTIVE@))
                        } else if t == SessionTool::ResumeTask && s.active {
                            Reply::Respond(tool_error_model(id, RESUME_WHILE_ACTIVE@))
                        } else if needs_session(t) && !s.active {
                            Reply::Respond(tool_error_model(id, no_active_session_text()))
                        } else {
                            Reply::CallTool(id, t, arguments)
                        }
                    },
                }
            }
        },
    }
}

/// How a server in state `s` handles message `msg`: the state it moves to
/// and what it answers.
pub open spec fn mcp_step(s: McpState, msg: Json) -> (McpState, Reply) {
    let id = request_id(msg);
    let notification = is_notification(msg);
    let method = text_of(member(msg, "method"@));
    if !(msg is Object) {
        (s, Reply::Respond(error_model(Json::Null, -32600, "Invalid Request"@, None)))
    } else if text_of(member(msg, "jsonrpc"@)) != Some("2.0"@) || method is None {
        if notification {
            (s, Reply::Silent)
        } else {
            (s, Reply::Respond(error_model(id, -32600, "Invalid Request"@, None)))
        }
    } else {
        let m = method->Some_0;
        if m == "initialize"@ {
            if notification {
                (s, Reply::Silent)
            } else {
                match text_of(param(msg, "protocolVersion"@)) {
                    None => (
                        s,
                        Reply::Respond(
                            invalid_params_model(id, "initialize requires params.protocolVersion"@),
                        ),
                    ),
                    Some(v) => (
                        McpState { negotiated: true, initialized: false, ..s },
                        Reply::Respond(
                            success_model(id, initialize_result_model(negotiated_version(v))),
                        ),
                    ),
                }
            }
        } else if m == "notifications/initialized"@ {
            (McpState { initialized: s.initialized || s.negotiated, ..s }, Reply::Silent)
        } else if m == "ping"@ {
            if notification {
                (s, Reply::Silent)
            } else {
                (s, Reply::Respond(success_model(id, obj(seq![]))))
            }
        } else if m == "tools/list"@ {
            if notification {
                (s, Reply::Silent)
            } else if !s.initialized {
                (s, Reply::Respond(error_model(id, -32002, "Server not initialized"@, None)))
            } else {
                (
                    s,
                    Reply::Respond(success_model(id, obj(seq![("tools"@, Json::Array(s.tools))]))),
                )
            }
        } else if m == "tools/call"@ {
            if notification {
                (s, Reply::Silent)
            } else if !s.initialized {
                (s, Reply::Respond(error_model(id, -32002, "Server not initialized"@, None)))
            } else {
                (s, tool_call_reply(s, id, msg))
            }
        } else if notification {
            (s, Reply::Silent)
        } else {
            (
                s,
                Reply::Respond(
                    error_model(id, -32601, "Method not found"@, Some(obj(seq![("method"@, Json::Str(m))]))),
                ),
            )
        }
    }
}

/// The answer to a message that is not JSON at all.
pub open spec fn parse_error_model(detail: Seq<char>) -> Json {
    error_model(Json::Null, -32700, "Parse error"@, Some(detail_model(detail)))
}

/// The JSON-RPC side of the MCP stdio server: protocol negotiation, the
/// initialization handshake, the tool catalogue, and whether a task session
/// is active.
pub struct McpServer {
    default_base_revision: String,
    negotiated: bool,
    initialized: bool,
    active: bool,
    tools: Vec<JsonValue>,
}

impl McpServer {
    /// The server is never initialized without having negotiated.
    #[verifier::type_invariant]
    spec fn handshake_order(&self) -> bool {
        self.initialized ==> self.negotiated
    }

    /// The protocol state of this server.
    pub closed spec fn state(&self) -> McpState {
        McpState {
            negotiated: self.negotiated,
            initialized: self.initialized,
            active: self.active,
            tools: json_models(self.tools@),
        }
    }

    /// The revision `soul_start_task` branches from when the call names none.
    pub closed spec fn base_revision(&self) -> Seq<char> {
        self.default_base_revision@
    }

    /// Sets up a server. MCP owns stdin, so interactive approval is refused;
    /// the default base revision must hold something other than white space.
    /// The catalogue advertises the session tools and then `coding_tools`.
    pub fn new(
        default_base_revision: String,
        mode: ExecutionMode,
        coding_tools: Vec<CodingToolSchema>,
    ) -> (r: Result<McpServer, McpServerError>)
        ensures
            mode == ExecutionMode::Interactive ==> r matches Err(McpServerError::InteractiveStdio),
            mode != ExecutionMode::Interactive && is_blank_text(default_base_revision@) ==> r matches Err(
                McpServerError::EmptyBaseRevision,
            ),
            mode != ExecutionMode::Interactive && !is_blank_text(default_base_revision@) ==> (
            r matches Ok(server) && server.state() == (McpState {
                negotiated: false,
                initialized: false,
                active: false,
                tools: mcp_tool_schemas_model(coding_tools@),
            }) && server.base_revision() == default_base_revision@),
            r matches Ok(server) ==> (server.state().initialized ==> server.state().negotiated),
    {
        if mode == ExecutionMode::Interactive {
            return Err(McpServerError::InteractiveStdio);
        }
        if is_blank(default_base_revision.as_str()) {
            return Err(McpServerError::EmptyBaseRevision);
        }
        let ghost model = mcp_tool_schemas_model(coding_tools@);
        assert(model.len() == 5 + coding_tools@.len());
        let tools = mcp_tool_schemas(coding_tools);
        proof {
            crate::json::lemma_json_models(tools@);
            assert forall|i: int| 0 <= i < model.len() implies json_models(tools@)[i] == model[i] by {
                assert(tools@[i]@ == model[i]);
            }
            assert(json_models(tools@) =~= model);
        }
        Ok(McpServer { default_base_revision, negotiated: false, initialized: false, active: false, tools })
    }

    /// The revision `soul_start_task` branches from when the call names none.
    pub fn default_base_revision(&self) -> (r: &String)
        ensures
            r@ == self.base_revision(),
    {
        &self.default_base_revision
    }

    /// Whether the client completed the initialization handshake.
    pub fn is_initialized(&self) -> (r: bool)
        ensures
            r == self.state().initialized,
            self.state().initialized ==> self.state().negotiated,
    {
        proof {
            use_type_invariant(self);
        }
        self.initialized
    }

    /// Whether a task session is active.
    pub fn has_active_session(&self) -> (r: bool)
        ensures
            r == self.state().active,
    {
        self.active
    }

    /// Records that `soul_start_task` or `soul_resume_task` opened a session.
    pub fn begin_session(&mut self)
        ensures
            final(self).state() == (McpState { active: true, ..old(self).state() }),
            final(self).base_revision() == old(self).base_revision(),
            final(self).state().initialized ==> final(self).state().negotiated,
    {
        proof {
            use_type_invariant(&*self);
        }
        self.active = true;
    }

    /// Handles one line of input, already parsed: a parse failure (with
    /// its detail) is answered with a JSON-RPC parse error.
    pub fn handle_line(&mut self, parsed: Result<JsonValue, String>) -> (r: McpReply)
        ensures
            match parsed {
                Ok(message) => (final(self).state(), reply_model(r)) == mcp_step(
                    old(self).state(),
                    message@,
                ),
                Err(detail) => final(self).state() == old(self).state() && reply_model(r)
                    == Reply::Respond(parse_error_model(detail@)),
            },
            final(self).base_revision() == old(self).base_revision(),
            final(self).state().initialized ==> final(self).state().negotiated,
    {
        proof {
            use_type_invariant(&*self);
        }
        match parsed {
            Ok(message) => self.handle_value(&message),
            Err(detail) => McpReply::Respond(
                error_response(JsonValue::Null, -32700, "Parse error", Some(detail_object(detail))),
            ),
        }
    }

    /// Handles one JSON-RPC message.
    pub fn handle_value(&mut self, message: &JsonValue) -> (r: McpReply)
        ensures
            (final(self).state(), reply_model(r)) == mcp_step(old(self).state(), message@),
            final(self).base_revision() == old(self).base_revision(),
            final(self).state().initialized ==> final(self).state().negotiated,
    {
        proof {
            use_type_invariant(&*self);
        }
        if !message.is_object() {
            return McpReply::Respond(
                error_response(JsonValue::Null, -32600, "Invalid Request", None),
            );
        }
        let id_ref = message.get("id");
        let notification = id_ref.is_none();
        let id = match id_ref {
            Some(v) => v.duplicate(),
            None => JsonValue::Null,
        };
        let jsonrpc_ok = match message.get("jsonrpc") {
            Some(v) => match v.as_text() {
                Some(t) => text_is(t.as_str(), "2.0"),
                None => false,
            },
            None => false,
        };
        let method = match message.get("method") {
            Some(v) => v.as_text(),
            None => None,
        };
        if !jsonrpc_ok || method.is_none() {
            return if notification {
                McpReply::Silent
            } else {
                McpReply::Respond(error_response(id, -32600, "Invalid Request", None))
            };
        }
        let method = method.unwrap();
        let m = method.as_str();
        if text_is(m, "initialize") {
            if notification {
                return McpReply::Silent;
            }
            let requested = match params_member(message, "protocolVersion") {
                Some(v) => v.as_text(),
                None => None,
            };
            match requested {
                None => McpReply::Respond(
                    error_response(
                        id,
                        -32602,
                        "Invalid params",
                        Some(
                            detail_object(
                                String::from_str("initialize requires params.protocolVersion"),
                            ),
                        ),
                    ),
                ),
                Some(v) => {
                    let version = negotiate_protocol_version(v.as_str());
                    self.negotiated = true;
                    self.initialized = false;
                    McpReply::Respond(success_response(id, initialize_result(version)))
                },
            }
        } else if text_is(m, "notifications/initialized") {
            if self.negotiated {
                self.initialized = true;
            }
            McpReply::Silent
        } else if text_is(m, "ping") {
            if notification {
                McpReply::Silent
            } else {
                McpReply::Respond(success_response(id, JsonValue::Object(Vec::new())))
            }
        } else if text_is(m, "tools/list") {
            if notification {
                McpReply::Silent
            } else if !self.initialized {
                McpReply::Respond(not_initialized(id))
            } else {
                let tools = JsonValue::Array(duplicate_all(&self.tools));
                McpReply::Respond(success_response(id, obj1("tools", tools)))
            }
        } else if text_is(m, "tools/call") {
            if notification {
                McpReply::Silent
            } else if !self.initialized {
                McpReply::Respond(not_initialized(id))
            } else {
                self.tool_call(id, message)
            }
        } else if notification {
            McpReply::Silent
        } else {
            McpReply::Respond(
                error_response(
                    id,
                    -32601,
                    "Method not found",
                    Some(obj1("method", JsonValue::Str(method.clone()))),
                ),
            )
        }
    }

    /// Routes a `tools/call` request of an initialized server.
    fn tool_call(&self, id: JsonValue, message: &JsonValue) -> (r: McpReply)
        ensures
            reply_model(r) == tool_call_reply(self.state(), id@, message@),
    {
        let name = match params_member(message, "name") {
            Some(v) => v.as_text(),
            None => None,
        };
        let name = match name {
            Some(n) => n,
            None => {
                return McpReply::Respond(
                    error_response(
                        id,
                        -32602,
                        "Invalid params",
                        Some(detail_object(String::from_str("tools/call requires params.name"))),
                    ),
                );
            },
        };
        let arguments = match params_member(message, "arguments") {
            Some(a) => a.duplicate(),
            None => JsonValue::Object(Vec::new()),
        };
        if !arguments.is_object() {
            return McpReply::Respond(
                error_response(
                    id,
                    -32602,
                    "Invalid params",
                    Some(detail_object(String::from_str("params.arguments must be an object"))),
                ),
            );
        }
        match SessionTool::named(name.as_str()) {
            None => {
                let mut d = String::from_str("unknown tool: ");
                d.append(name.as_str());
                McpReply::Respond(error_response(id, -32602, "Invalid params", Some(detail_object(d))))
            },
            Some(t) => {
                if t == SessionTool::StartTask && self.active {
                    McpReply::Respond(
                        success_response(id, tool_result(String::from_str(START_WHILE_ACTIVE), true)),
                    )
                } else if t == SessionTool::ResumeTask && self.active {
                    McpReply::Respond(
                        success_response(id, tool_result(String::from_str(RESUME_WHILE_ACTIVE), true)),
                    )
                } else if t != SessionTool::StartTask && t != SessionTool::ResumeTask && !self.active {
                    McpReply::Respond(success_response(id, tool_result(no_active_session(), true)))
                } else {
                    McpReply::CallTool(ToolRequest { id, tool: t, arguments })
                }
            },
        }
    }
}

/// The member `key` of the `params` of `message`.
fn params_member<'a>(message: &'a JsonValue, key: &str) -> (r: Option<&'a JsonValue>)
    ensures
        opt_model(r) == param(message@, key@),
{
    match message.get("params") {
        Some(p) => p.get(key),
        None => None,
    }
}

/// The outcome of a coding-tool run: its output, as an error when the run
/// did not succeed.
pub fn coding_tool_outcome(success: bool, output: String) -> (r: Result<String, String>)
    ensures
        success ==> (r matches Ok(t) && t@ == output@),
        !success ==> (r matches Err(t) && t@ == output@),
{
    if success {
        Ok(output)
    } else {
        Err(output)
    }
}

/// The result of a successful `initialize` answered with `version`.
pub fn initialize_result(version: &str) -> (r: JsonValue)
    ensures
        r@ == initialize_result_model(version@),
{
    let capabilities = obj1("tools", obj1("listChanged", JsonValue::Bool(false)));
    let info = obj2("name", JsonValue::text(SERVER_NAME), "version", JsonValue::text(SERVER_VERSION));
    obj4(
        "protocolVersion",
        JsonValue::text(version),
        "capabilities",
        capabilities,
        "serverInfo",
        info,
        "instructions",
        JsonValue::text(SERVER_INSTRUCTIONS),
    )
}

/// The response to a tool call whose run ended with `outcome`: its text,
/// flagged as an error when the run failed.
pub fn tool_call_response(id: JsonValue, outcome: Result<String, String>) -> (r: JsonValue)
    ensures
        r@ == match outcome {
            Ok(text) => success_model(id@, tool_result_model(text@, false)),
            Err(text) => success_model(id@, tool_result_model(text@, true)),
        },
{
    match outcome {
        Ok(text) => success_response(id, tool_result(text, false)),
        Err(text) => success_response(id, tool_result(text, true)),
    }
}

/// An `initialize` request: a JSON-RPC 2.0 request with an `id` and a
/// textual `params.protocolVersion`.
pub open spec fn is_initialize_request(msg: Json) -> bool {
    &&& msg is Object
    &&& text_of(member(msg, "jsonrpc"@)) == Some("2.0"@)
    &&& text_of(member(msg, "method"@)) == Some("initialize"@)
    &&& !is_notification(msg)
    &&& text_of(param(msg, "protocolVersion"@)) is Some
}

/// The `notifications/initialized` notification (with or without an id).
pub open spec fn is_initialized_notification(msg: Json) -> bool {
    &&& msg is Object
    &&& text_of(member(msg, "jsonrpc"@)) == Some("2.0"@)
    &&& text_of(member(msg, "method"@)) == Some("notifications/initialized"@)
}

/// A JSON-RPC 2.0 request (it carries an `id`) for `method`.
pub open spec fn is_request_for(msg: Json, method: Seq<char>) -> bool {
    &&& msg is Object
    &&& text_of(member(msg, "jsonrpc"@)) == Some("2.0"@)
    &&& text_of(member(msg, "method"@)) == Some(method)
    &&& !is_notification(msg)
}

/// A notification, whatever it says, is never answered and never produces
/// a tool run.
pub proof fn lemma_notifications_are_never_answered(s: McpState, msg: Json)
    requires
        msg is Object,
        is_notification(msg),
    ensures
        mcp_step(s, msg).1 == Reply::Silent,
{
}

/// The handshake: an `initialize` request followed by the
/// `notifications/initialized` notification leaves the server initialized,
/// whatever state it started from.
pub proof fn lemma_handshake_initializes(s: McpState, init: Json, confirm: Json)
    requires
        is_initialize_request(init),
        is_initialized_notification(confirm),
    ensures
        mcp_step(s, init).0.negotiated,
        !mcp_step(s, init).0.initialized,
        mcp_step(mcp_step(s, init).0, confirm).0.initialized,
{
    lemma_method_names_differ();
    let s1 = mcp_step(s, init).0;
    assert(s1.negotiated);
    assert(mcp_step(s1, confirm).0.initialized == (s1.initialized || s1.negotiated));
}

/// Before the handshake completes, `tools/list` and `tools/call` requests
/// are refused with `-32002 Server not initialized`, and nothing changes.
pub proof fn lemma_tools_wait_for_initialization(s: McpState, msg: Json)
    requires
        !s.initialized,
        is_request_for(msg, "tools/list"@) || is_request_for(msg, "tools/call"@),
    ensures
        mcp_step(s, msg) == (
        s,
        Reply::Respond(error_model(request_id(msg), -32002, "Server not initialized"@, None)),
        ),
{
    lemma_method_names_differ();
}

/// The method names of the dispatch table are pairwise distinct.
proof fn lemma_method_names_differ()
    ensures
        "initialize"@ != "notifications/initialized"@,
        "initialize"@ != "ping"@,
        "initialize"@ != "tools/list"@,
        "initialize"@ != "tools/call"@,
        "notifications/initialized"@ != "ping"@,
        "notifications/initialized"@ != "tools/list"@,
        "notifications/initialized"@ != "tools/call"@,
        "ping"@ != "tools/list"@,
        "ping"@ != "tools/call"@,
        "tools/list"@ != "tools/call"@,
{
    reveal_strlit("initialize");
    reveal_strlit("notifications/initialized");
    reveal_strlit("ping");
    reveal_strlit("tools/list");
    reveal_strlit("tools/call");
    assert("initialize"@.len() != "notifications/initialized"@.len());
    assert("initialize"@.len() != "ping"@.len());
    assert("initialize"@[0] != "tools/list"@[0]);
    assert("initialize"@[0] != "tools/call"@[0]);
    assert("notifications/initialized"@.len() != "ping"@.len());
    assert("notifications/initialized"@.len() != "tools/list"@.len());
    assert("notifications/initialized"@.len() != "tools/call"@.len());
    assert("ping"@.len() != "tools/list"@.len());
    assert("ping"@.len() != "tools/call"@.len());
    assert("tools/list"@[6] != "tools/call"@[6]);
}

/// No message makes the server initialized without it having negotiated a
/// protocol revision first.
pub proof fn lemma_step_keeps_handshake_order(s: McpState, msg: Json)
    requires
        s.initialized ==> s.negotiated,
    ensures
        mcp_step(s, msg).0.initialized ==> mcp_step(s, msg).0.negotiated,
{
}

/// Only the handshake messages change the protocol state; the session flag
/// and the catalogue are never changed by a message.
pub proof fn lemma_step_changes_only_handshake(s: McpState, msg: Json)
    ensures
        mcp_step(s, msg).0.active == s.active,
        mcp_step(s, msg).0.tools == s.tools,
{
}

/// A tool run is only ever handed to the host for an initialized server,
/// with object arguments, for a session tool while a session is active, and
/// for `soul_start_task` / `soul_resume_task` only while none is.
pub proof fn lemma_tool_runs_respect_the_session(s: McpState, msg: Json)
    ensures
        mcp_step(s, msg).1 matches Reply::CallTool(id, t, arguments) ==> {
            &&& s.initialized
            &&& arguments is Object
            &&& id == request_id(msg)
            &&& needs_session(t) ==> s.active
            &&& !needs_session(t) ==> !s.active
            &&& tool_named(text_of(param(msg, "name"@))->Some_0) == Some(t)
        },
{
}

/// The server only answers protocol revisions it supports, and answers the
/// client's own revision whenever it supports it.
pub proof fn lemma_negotiation_answers_a_supported_revision(requested: Seq<char>)
    ensures
        supported_protocol_versions().contains(negotiated_version(requested)),
        supported_protocol_versions().contains(requested) ==> negotiated_version(requested)
            == requested,
{
    assert(supported_protocol_versions()[3] == MCP_LATEST_PROTOCOL_VERSION@);
}

proof fn lemma_envelope_members(id: Json, key: Seq<char>, body: Json)
    ensures
        member(envelope(id, key, body), "jsonrpc"@) == Some(Json::Str("2.0"@)),
        member(envelope(id, key, body), "id"@) == Some(id),
{
    reveal_strlit("jsonrpc");
    reveal_strlit("id");
    assert("jsonrpc"@[0] != "id"@[0]);
    let fields = seq![("jsonrpc"@, Json::Str("2.0"@)), ("id"@, id), (key, body)];
    assert(fields.drop_first()[0] == ("id"@, id));
    assert(fields[0].0 != "id"@);
    assert(crate::json::lookup(fields, "id"@) == crate::json::lookup(fields.drop_first(), "id"@));
    assert(crate::json::lookup(fields.drop_first(), "id"@) == Some(id));
}

/// Every answer is a JSON-RPC 2.0 message that carries the `id` of the
/// request it answers (`null` when the message was not an object).
pub proof fn lemma_answers_echo_the_request_id(s: McpState, msg: Json)
    ensures
        mcp_step(s, msg).1 matches Reply::Respond(r) ==> {
            &&& member(r, "jsonrpc"@) == Some(Json::Str("2.0"@))
            &&& member(r, "id"@) == Some(if msg is Object {
                request_id(msg)
            } else {
                Json::Null
            })
        },
{
    let id = if msg is Object {
        request_id(msg)
    } else {
        Json::Null
    };
    assert forall|key: Seq<char>, body: Json|
        member(#[trigger] envelope(id, key, body), "id"@) == Some(id) && member(
            envelope(id, key, body),
            "jsonrpc"@,
        ) == Some(Json::Str("2.0"@)) by {
        lemma_envelope_members(id, key, body);
    }
}

/// A repeated `initialize` reopens the handshake: until the client confirms
/// again, `tools/list` and `tools/call` are refused.
pub proof fn lemma_initialize_reopens_the_handshake(s: McpState, init: Json, msg: Json)
    requires
        is_initialize_request(init),
        is_request_for(msg, "tools/list"@) || is_request_for(msg, "tools/call"@),
    ensures
        mcp_step(mcp_step(s, init).0, msg).1 == Reply::Respond(
            error_model(request_id(msg), -32002, "Server not initialized"@, None),
        ),
{
    lemma_method_names_differ();
    let s1 = mcp_step(s, init).0;
    assert(!s1.initialized);
    lemma_tools_wait_for_initialization(s1, msg);
}

/// Only `initialize` and `notifications/initialized` change the state of
/// the server; every other message leaves it as it was.
pub proof fn lemma_other_messages_leave_the_state(s: McpState, msg: Json)
    requires
        text_of(member(msg, "method"@)) != Some("initialize"@),
        text_of(member(msg, "method"@)) != Some("notifications/initialized"@),
    ensures
        mcp_step(s, msg).0 == s,
{
}

/// The `result` member of a success envelope is the result it was built
/// with.
proof fn lemma_envelope_body(id: Json, key: Seq<char>, body: Json)
    requires
        key != "jsonrpc"@,
        key != "id"@,
    ensures
        member(envelope(id, key, body), key) == Some(body),
{
    let fields = seq![("jsonrpc"@, Json::Str("2.0"@)), ("id"@, id), (key, body)];
    lemma_lookup_finds(fields, key, 2);
}

proof fn lemma_result_key_differs()
    ensures
        "result"@ != "jsonrpc"@,
        "result"@ != "id"@,
        "error"@ != "jsonrpc"@,
        "error"@ != "id"@,
{
    reveal_strlit("result");
    reveal_strlit("error");
    reveal_strlit("jsonrpc");
    reveal_strlit("id");
    assert("result"@[0] != "jsonrpc"@[0]);
    assert("result"@[0] != "id"@[0]);
    assert("error"@[0] != "jsonrpc"@[0]);
    assert("error"@[0] != "id"@[0]);
}

/// An initialized server answers a `tools/list` request with its whole
/// catalogue, in order and with nothing dropped or added, under
/// `result.tools`, and the request's `id`; the state is unchanged.
pub proof fn lemma_tools_list_answers_the_whole_catalogue(s: McpState, msg: Json)
    requires
        s.initialized,
        is_request_for(msg, "tools/list"@),
    ensures
        mcp_step(s, msg).0 == s,
        mcp_step(s, msg).1 matches Reply::Respond(r) && member(r, "id"@) == Some(request_id(msg))
            && member_of(member(r, "result"@), "tools"@) == Some(Json::Array(s.tools)),
{
    lemma_method_names_differ();
    lemma_result_key_differs();
    let body = obj(seq![("tools"@, Json::Array(s.tools))]);
    lemma_envelope_members(request_id(msg), "result"@, body);
    lemma_envelope_body(request_id(msg), "result"@, body);
    lemma_lookup_finds(seq![("tools"@, Json::Array(s.tools))], "tools"@, 0);
}

/// A tool run is handed the client's own `params.arguments` unchanged;
/// only when the call carries no arguments does the tool get an empty
/// object.
pub proof fn lemma_tool_runs_get_the_client_arguments(s: McpState, msg: Json)
    ensures
        mcp_step(s, msg).1 matches Reply::CallTool(id, t, a) ==> {
            &&& param(msg, "arguments"@) matches Some(x) ==> a == x
            &&& param(msg, "arguments"@) is None ==> a == Json::Object(Seq::empty())
        },
{
}

/// A successful `initialize` answers the negotiated revision under
/// `result.protocolVersion` and declares the tools capability,
/// `result.capabilities.tools == {"listChanged": false}`, whatever revision
/// was asked for; it names the server in `result.serverInfo.name`.
pub proof fn lemma_initialize_declares_the_tools_capability(s: McpState, msg: Json)
    requires
        is_initialize_request(msg),
    ensures
        mcp_step(s, msg).1 matches Reply::Respond(r) && member(r, "id"@) == Some(request_id(msg))
            && member_of(member(r, "result"@), "protocolVersion"@) == Some(
            Json::Str(negotiated_version(text_of(param(msg, "protocolVersion"@))->Some_0)),
        ) && member_of(member_of(member(r, "result"@), "capabilities"@), "tools"@) == Some(
            Json::Object(seq![("listChanged"@, Json::Bool(false))]),
        ) && member_of(member_of(member(r, "result"@), "serverInfo"@), "name"@) == Some(
            Json::Str("soul-coding"@),
        ),
{
    lemma_method_names_differ();
    lemma_result_key_differs();
    reveal_strlit("protocolVersion");
    reveal_strlit("capabilities");
    reveal_strlit("serverInfo");
    reveal_strlit("name");
    reveal_strlit("version");
    assert("protocolVersion"@[0] != "capabilities"@[0]);
    assert("protocolVersion"@[0] != "serverInfo"@[0]);
    assert("capabilities"@[0] != "serverInfo"@[0]);
    let v = negotiated_version(text_of(param(msg, "protocolVersion"@))->Some_0);
    let result = initialize_result_model(v);
    let fields = seq![
        ("protocolVersion"@, Json::Str(v)),
        (
            "capabilities"@,
            obj(seq![("tools"@, obj(seq![("listChanged"@, Json::Bool(false))]))]),
        ),
        (
            "serverInfo"@,
            obj(seq![("name"@, Json::Str(SERVER_NAME@)), ("version"@, Json::Str(SERVER_VERSION@))]),
        ),
        ("instructions"@, Json::Str(SERVER_INSTRUCTIONS@)),
    ];
    assert(result == obj(fields));
    lemma_envelope_members(request_id(msg), "result"@, result);
    lemma_envelope_body(request_id(msg), "result"@, result);
    lemma_lookup_finds(fields, "protocolVersion"@, 0);
    lemma_lookup_finds(fields, "capabilities"@, 1);
    lemma_lookup_finds(fields, "serverInfo"@, 2);
    lemma_lookup_finds(
        seq![("tools"@, obj(seq![("listChanged"@, Json::Bool(false))]))],
        "tools"@,
        0,
    );
    lemma_lookup_finds(
        seq![("name"@, Json::Str(SERVER_NAME@)), ("version"@, Json::Str(SERVER_VERSION@))],
        "name"@,
        0,
    );
}

/// A tool result carries the run's output, whatever it is, as the text of
/// its single content item, and flags failure in `isError`; wrapped in a
/// success response it sits under `result`, beside the request's `id`.
pub proof fn lemma_tool_results_carry_the_output(id: Json, text: Seq<char>, is_error: bool)
    ensures
        member(tool_result_model(text, is_error), "content"@) matches Some(Json::Array(items))
            && items.len() == 1 && member(items[0], "type"@) == Some(Json::Str("text"@)) && member(
            items[0],
            "text"@,
        ) == Some(Json::Str(text)),
        member(tool_result_model(text, is_error), "isError"@) == Some(Json::Bool(is_error)),
        member(success_model(id, tool_result_model(text, is_error)), "result"@) == Some(
            tool_result_model(text, is_error),
        ),
        member(success_model(id, tool_result_model(text, is_error)), "id"@) == Some(id),
{
    lemma_result_key_differs();
    reveal_strlit("content");
    reveal_strlit("isError");
    reveal_strlit("type");
    reveal_strlit("text");
    assert("content"@[0] != "isError"@[0]);
    assert("type"@[1] != "text"@[1]);
    let item_fields = seq![("type"@, Json::Str("text"@)), ("text"@, Json::Str(text))];
    let item = obj(item_fields);
    let fields = seq![
        ("content"@, Json::Array(seq![item])),
        ("isError"@, Json::Bool(is_error)),
    ];
    assert(tool_result_model(text, is_error) == obj(fields));
    lemma_lookup_finds(fields, "content"@, 0);
    lemma_lookup_finds(fields, "isError"@, 1);
    lemma_lookup_finds(item_fields, "type"@, 0);
    lemma_lookup_finds(item_fields, "text"@, 1);
    lemma_envelope_members(id, "result"@, tool_result_model(text, is_error));
    lemma_envelope_body(id, "result"@, tool_result_model(text, is_error));
}

} // verus!
