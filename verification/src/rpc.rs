//! JSON-RPC dispatch of the MCP server and the file tools it offers.
//!
//! A request is answered in one or two steps. [`handle_mcp_request`] either
//! answers it at once or names the file operation that the caller performs;
//! the caller then hands the operation's outcome to [`finish_tool_call`],
//! which makes the answer. Both record what happened in the server log.
use vstd::prelude::*;
use vstd::string::StringExecFns;
use crate::paths::{validate_path, validate_spec, result_view, in_workspace, normalized,
    workspace_prefix, lemma_accepted_path_in_workspace};
use crate::pattern::{Pattern, compile_pattern, regex_compile_error, regex_is_match};
use crate::server::{ServerState, ServerView, LogView, log_push, add_log, opt_view, MAX_LOG_ENTRIES};
use crate::text::{chars_of, chars_equal, decimal, decimal_text, join_lines, join_with_newlines,
    split_lines, strings_view, text_lines};

verus! {

// ---------------------------------------------------------------------
// Requests
// ---------------------------------------------------------------------

/// The arguments of a tool call that the tools read. Each is present when
/// the call's `arguments` hold that key with a string value.
pub struct ToolArgs {
    pub path: Option<String>,
    pub content: Option<String>,
    pub query: Option<String>,
}

/// The `params` of a request, as a tool call reads them.
pub struct ToolCall {
    /// The `name` entry, when it is a string.
    pub name: Option<String>,
    pub arguments: ToolArgs,
}

/// A JSON-RPC request as the dispatcher reads it.
pub struct RpcRequest {
    /// Whether the request carries an `id`; one without is a notification.
    pub has_id: bool,
    pub method: String,
    /// The request's `params` as JSON text, for the log.
    pub params_text: String,
    /// The request's `params`, when it has any.
    pub params: Option<ToolCall>,
}

pub struct ArgsView {
    pub path: Option<Seq<char>>,
    pub content: Option<Seq<char>>,
    pub query: Option<Seq<char>>,
}

pub struct CallView {
    pub name: Option<Seq<char>>,
    pub arguments: ArgsView,
}

pub struct RequestView {
    pub has_id: bool,
    pub method: Seq<char>,
    pub params_text: Seq<char>,
    pub params: Option<CallView>,
}

impl View for ToolArgs {
    type V = ArgsView;

    open spec fn view(&self) -> ArgsView {
        ArgsView { path: opt_view(self.path), content: opt_view(self.content), query: opt_view(self.query) }
    }
}

impl View for ToolCall {
    type V = CallView;

    open spec fn view(&self) -> CallView {
        CallView { name: opt_view(self.name), arguments: self.arguments@ }
    }
}

impl View for RpcRequest {
    type V = RequestView;

    open spec fn view(&self) -> RequestView {
        RequestView {
            has_id: self.has_id,
            method: self.method@,
            params_text: self.params_text@,
            params: match self.params {
                Some(c) => Some(c@),
                None => None,
            },
        }
    }
}

// ---------------------------------------------------------------------
// Answers
// ---------------------------------------------------------------------

/// What the server reports of itself when a client initialises.
pub struct ServerInfo {
    pub protocol_version: String,
    /// The features the server offers; each is announced with no options.
    pub capabilities: Vec<String>,
    pub name: String,
    pub version: String,
}

/// A tool the server offers. Each parameter is a required string.
pub struct ToolSpec {
    pub name: String,
    pub description: String,
    pub params: Vec<String>,
}

/// The result of a successful request.
pub enum RpcResult {
    Initialize(ServerInfo),
    ToolsList(Vec<ToolSpec>),
    /// A tool's text output.
    Text(String),
}

/// A JSON-RPC error.
pub struct RpcFailure {
    pub code: i32,
    pub message: String,
}

/// The answer to a request.
pub enum RpcReply {
    /// A notification gets no body.
    NoContent,
    Success(RpcResult),
    Failure(RpcFailure),
}

/// A file operation that a tool call asks for, on a path that has been
/// confined to the workspace.
pub enum ToolAction {
    ReadFile { path: String },
    WriteFile { path: String, content: String },
    /// List the entries below `path`, [`LIST_FILES_DEPTH`] levels deep.
    ListFiles { path: String },
    /// Search the files below `path` for lines that `pattern` matches.
    SearchFiles { path: String, pattern: Pattern },
    DeleteFile { path: String },
}

/// What the dispatcher asks of the caller.
pub enum RpcStep {
    /// Send this answer.
    Reply(RpcReply),
    /// Perform this operation, then pass its outcome to [`finish_tool_call`].
    RunTool(ToolAction),
}

pub struct InfoView {
    pub protocol_version: Seq<char>,
    pub capabilities: Seq<Seq<char>>,
    pub name: Seq<char>,
    pub version: Seq<char>,
}

pub struct ToolView {
    pub name: Seq<char>,
    pub description: Seq<char>,
    pub params: Seq<Seq<char>>,
}

pub enum ResultView {
    Initialize(InfoView),
    ToolsList(Seq<ToolView>),
    Text(Seq<char>),
}

pub enum ReplyView {
    NoContent,
    Success(ResultView),
    Failure(i32, Seq<char>),
}

pub enum ActionView {
    ReadFile(Seq<char>),
    WriteFile(Seq<char>, Seq<char>),
    ListFiles(Seq<char>),
    /// The path and the source text of the expression.
    SearchFiles(Seq<char>, Seq<char>),
    DeleteFile(Seq<char>),
}

pub enum StepView {
    Reply(ReplyView),
    RunTool(ActionView),
}

impl View for ServerInfo {
    type V = InfoView;

    open spec fn view(&self) -> InfoView {
        InfoView {
            protocol_version: self.protocol_version@,
            capabilities: strings_view(self.capabilities@),
            name: self.name@,
            version: self.version@,
        }
    }
}

impl View for ToolSpec {
    type V = ToolView;

    open spec fn view(&self) -> ToolView {
        ToolView {
            name: self.name@,
            description: self.description@,
            params: strings_view(self.params@),
        }
    }
}

/// The views of a sequence of tool descriptions.
pub open spec fn tools_view(v: Seq<ToolSpec>) -> Seq<ToolView> {
    v.map_values(|t: ToolSpec| t@)
}

impl View for RpcResult {
    type V = ResultView;

    open spec fn view(&self) -> ResultView {
        match self {
            RpcResult::Initialize(i) => ResultView::Initialize(i@),
            RpcResult::ToolsList(ts) => ResultView::ToolsList(tools_view(ts@)),
            RpcResult::Text(t) => ResultView::Text(t@),
        }
    }
}

impl View for RpcReply {
    type V = ReplyView;

    open spec fn view(&self) -> ReplyView {
        match self {
            RpcReply::NoContent => ReplyView::NoContent,
            RpcReply::Success(r) => ReplyView::Success(r@),
            RpcReply::Failure(f) => ReplyView::Failure(f.code, f.message@),
        }
    }
}

impl View for ToolAction {
    type V = ActionView;

    open spec fn view(&self) -> ActionView {
        match self {
            ToolAction::ReadFile { path } => ActionView::ReadFile(path@),
            ToolAction::WriteFile { path, content } => ActionView::WriteFile(path@, content@),
            ToolAction::ListFiles { path } => ActionView::ListFiles(path@),
            ToolAction::SearchFiles { path, pattern } => ActionView::SearchFiles(path@, pattern@),
            ToolAction::DeleteFile { path } => ActionView::DeleteFile(path@),
        }
    }
}

impl View for RpcStep {
    type V = StepView;

    open spec fn view(&self) -> StepView {
        match self {
            RpcStep::Reply(r) => StepView::Reply(r@),
            RpcStep::RunTool(a) => StepView::RunTool(a@),
        }
    }
}

// ---------------------------------------------------------------------
// What the server offers
// ---------------------------------------------------------------------

/// How many levels below the listed folder `list_files` reports.
pub const LIST_FILES_DEPTH: usize = 2;

/// The JSON-RPC error code of a tool that failed.
pub const TOOL_ERROR: i32 = -32000;

/// The JSON-RPC error code of a call without parameters.
pub const INVALID_PARAMS: i32 = -32602;

/// The JSON-RPC error code of an unknown method.
pub const METHOD_NOT_FOUND: i32 = -32601;

/// The server's self-description.
pub open spec fn server_info_view() -> InfoView {
    InfoView {
        protocol_version: "2024-11-05"@,
        capabilities: seq!["tools"@],
        name: "Local Workspace Bridge"@,
        version: "0.1.0"@,
    }
}

/// The tools the server offers, with their parameters.
pub open spec fn tool_catalog_view() -> Seq<ToolView> {
    seq![
        ToolView { name: "read_file"@, description: "Read file content"@, params: seq!["path"@] },
        ToolView {
            name: "write_file"@,
            description: "Write file content"@,
            params: seq!["path"@, "content"@],
        },
        ToolView { name: "list_files"@, description: "List directory"@, params: seq!["path"@] },
        ToolView {
            name: "search_files"@,
            description: "Search text in files"@,
            params: seq!["path"@, "query"@],
        },
        ToolView { name: "delete_file"@, description: "Delete a file"@, params: seq!["path"@] },
    ]
}

fn server_info() -> (r: ServerInfo)
    ensures
        r@ == server_info_view(),
{
    let mut capabilities: Vec<String> = Vec::new();
    capabilities.push(String::from_str("tools"));
    let r = ServerInfo {
        protocol_version: String::from_str("2024-11-05"),
        capabilities,
        name: String::from_str("Local Workspace Bridge"),
        version: String::from_str("0.1.0"),
    };
    assert(strings_view(r.capabilities@) =~= seq!["tools"@]);
    r
}

fn tool_spec(name: &str, description: &str, first: &str, second: Option<&str>) -> (r: ToolSpec)
    ensures
        r@.name == name@,
        r@.description == description@,
        r@.params == match second {
            Some(s) => seq![first@, s@],
            None => seq![first@],
        },
{
    let mut params: Vec<String> = Vec::new();
    params.push(String::from_str(first));
    match second {
        Some(s) => {
            params.push(String::from_str(s));
        },
        None => {},
    }
    let r = ToolSpec { name: String::from_str(name), description: String::from_str(description), params };
    assert(r@.params =~= match second {
        Some(s) => seq![first@, s@],
        None => seq![first@],
    });
    r
}

fn tool_catalog() -> (r: Vec<ToolSpec>)
    ensures
        tools_view(r@) == tool_catalog_view(),
{
    let mut r: Vec<ToolSpec> = Vec::new();
    r.push(tool_spec("read_file", "Read file content", "path", None));
    r.push(tool_spec("write_file", "Write file content", "path", Some("content")));
    r.push(tool_spec("list_files", "List directory", "path", None));
    r.push(tool_spec("search_files", "Search text in files", "path", Some("query")));
    r.push(tool_spec("delete_file", "Delete a file", "path", None));
    assert(tools_view(r@) =~= tool_catalog_view());
    r
}

// ---------------------------------------------------------------------
// Log messages
// ---------------------------------------------------------------------

/// The log after recording each of `msgs` (a level and a message) at `time`.
pub open spec fn append_logs(logs: Seq<LogView>, time: u128, msgs: Seq<(Seq<char>, Seq<char>)>) -> Seq<
    LogView,
>
    decreases msgs.len(),
{
    if msgs.len() == 0 {
        logs
    } else {
        log_push(
            append_logs(logs, time, msgs.drop_last()),
            LogView { time, level: msgs.last().0, message: msgs.last().1 },
        )
    }
}

/// The entries that recording `msgs` at `time` adds.
pub open spec fn entries_of(time: u128, msgs: Seq<(Seq<char>, Seq<char>)>) -> Seq<LogView> {
    msgs.map_values(|m: (Seq<char>, Seq<char>)| LogView { time, level: m.0, message: m.1 })
}

/// The log keeps the most recent entries: recording messages into a log of
/// at most [`MAX_LOG_ENTRIES`] entries leaves the last [`MAX_LOG_ENTRIES`]
/// of the old entries followed by the new ones, in order.
pub proof fn lemma_log_keeps_most_recent(
    logs: Seq<LogView>,
    time: u128,
    msgs: Seq<(Seq<char>, Seq<char>)>,
)
    requires
        logs.len() <= MAX_LOG_ENTRIES,
    ensures
        ({
            let all = logs + entries_of(time, msgs);
            let dropped = if all.len() > MAX_LOG_ENTRIES { all.len() - MAX_LOG_ENTRIES } else { 0 };
            append_logs(logs, time, msgs) == all.skip(dropped)
        }),
        append_logs(logs, time, msgs).len() <= MAX_LOG_ENTRIES,
    decreases msgs.len(),
{
    let all = logs + entries_of(time, msgs);
    if msgs.len() == 0 {
        assert(all.skip(0) =~= logs);
    } else {
        let init = msgs.drop_last();
        lemma_log_keeps_most_recent(logs, time, init);
        let all0 = logs + entries_of(time, init);
        let d0 = if all0.len() > MAX_LOG_ENTRIES { all0.len() - MAX_LOG_ENTRIES } else { 0 };
        let e = LogView { time, level: msgs.last().0, message: msgs.last().1 };
        assert(entries_of(time, msgs) =~= entries_of(time, init).push(e));
        assert(all =~= all0.push(e));
        let a = all0.skip(d0);
        if a.len() + 1 > MAX_LOG_ENTRIES {
            assert(a.push(e).drop_first() =~= all.skip(d0 + 1));
        } else {
            assert(a.push(e) =~= all.skip(d0));
        }
    }
}

/// Recording two lists of messages one after the other records their
/// concatenation.
pub proof fn lemma_append_logs_concat(
    logs: Seq<LogView>,
    time: u128,
    a: Seq<(Seq<char>, Seq<char>)>,
    b: Seq<(Seq<char>, Seq<char>)>,
)
    ensures
        append_logs(append_logs(logs, time, a), time, b) == append_logs(logs, time, a + b),
    decreases b.len(),
{
    if b.len() == 0 {
        assert(a + b =~= a);
    } else {
        lemma_append_logs_concat(logs, time, a, b.drop_last());
        assert((a + b).drop_last() =~= a + b.drop_last());
        assert((a + b).last() == b.last());
    }
}

/// Records one message, with the fact that this extends the recorded list.
fn log_message(
    state: &mut ServerState,
    time: u128,
    level: &str,
    message: &str,
    Ghost(base): Ghost<Seq<LogView>>,
    Ghost(msgs): Ghost<Seq<(Seq<char>, Seq<char>)>>,
)
    requires
        old(state).wf(),
        old(state)@.logs == append_logs(base, time, msgs),
    ensures
        final(state).wf(),
        final(state)@ == (ServerView {
            logs: append_logs(base, time, msgs.push((level@, message@))),
            ..old(state)@
        }),
{
    add_log(state, time, level, message);
    assert(msgs.push((level@, message@)).drop_last() =~= msgs);
}

/// The log message of a path that a tool was asked for.
pub open spec fn path_log(path: Seq<char>) -> (Seq<char>, Seq<char>) {
    ("PATH"@, "Raw: "@ + path)
}

/// The log message of a search request.
pub open spec fn search_log(path: Seq<char>, query: Seq<char>) -> (Seq<char>, Seq<char>) {
    ("PATH"@, "Raw: "@ + path + " | Query: "@ + query)
}

// ---------------------------------------------------------------------
// Tool calls
// ---------------------------------------------------------------------

/// What a tool call asks for, once its path is confined.
pub open spec fn confined(
    workspace: Seq<char>,
    path: Seq<char>,
    make: spec_fn(Seq<char>) -> ActionView,
) -> Result<ActionView, Seq<char>> {
    match validate_spec(workspace, path) {
        Ok(full) => Ok(make(full)),
        Err(e) => Err(e),
    }
}

/// The messages a tool call records and the operation it asks for, or
/// the reason it is refused: a missing argument, a path outside the
/// workspace, a query that is no valid expression, or an unknown tool.
pub open spec fn plan_tool(workspace: Seq<char>, name: Seq<char>, args: ArgsView) -> (
    Seq<(Seq<char>, Seq<char>)>,
    Result<ActionView, Seq<char>>,
) {
    if name == "read_file"@ {
        match args.path {
            None => (Seq::empty(), Err("Missing path"@)),
            Some(p) => (seq![path_log(p)], confined(workspace, p, |f| ActionView::ReadFile(f))),
        }
    } else if name == "write_file"@ {
        match args.path {
            None => (Seq::empty(), Err("Missing path"@)),
            Some(p) => match args.content {
                None => (Seq::empty(), Err("Missing content"@)),
                Some(c) => (
                    seq![path_log(p)],
                    confined(workspace, p, |f| ActionView::WriteFile(f, c)),
                ),
            },
        }
    } else if name == "list_files"@ {
        match args.path {
            None => (Seq::empty(), Err("Missing path"@)),
            Some(p) => (seq![path_log(p)], confined(workspace, p, |f| ActionView::ListFiles(f))),
        }
    } else if name == "search_files"@ {
        match args.path {
            None => (Seq::empty(), Err("Missing path"@)),
            Some(p) => match args.query {
                None => (Seq::empty(), Err("Missing query"@)),
                Some(q) => (
                    seq![search_log(p, q)],
                    match validate_spec(workspace, p) {
                        Err(e) => Err(e),
                        Ok(full) => match regex_compile_error(q) {
                            Some(e) => Err(e),
                            None => Ok(ActionView::SearchFiles(full, q)),
                        },
                    },
                ),
            },
        }
    } else if name == "delete_file"@ {
        match args.path {
            None => (Seq::empty(), Err("Missing path"@)),
            Some(p) => (seq![path_log(p)], confined(workspace, p, |f| ActionView::DeleteFile(f))),
        }
    } else {
        (Seq::empty(), Err("Unknown tool"@))
    }
}

/// The view of a planned operation or refusal.
pub open spec fn action_result_view(r: Result<ToolAction, String>) -> Result<ActionView, Seq<char>> {
    match r {
        Ok(a) => Ok(a@),
        Err(e) => Err(e@),
    }
}

/// Whether two strings are equal.
fn str_eq(a: &str, b: &str) -> (r: bool)
    ensures
        r == (a@ == b@),
{
    chars_equal(&chars_of(a), &chars_of(b))
}

/// A string made of two parts.
fn concat2(a: &str, b: &str) -> (r: String)
    ensures
        r@ == a@ + b@,
{
    let mut r = String::from_str(a);
    r.append(b);
    r
}

/// The text of a required argument, or the refusal naming it.
fn required(arg: &Option<String>, missing: &str) -> (r: Result<String, String>)
    ensures
        match arg {
            Some(s) => r is Ok && r->Ok_0@ == s@,
            None => r is Err && r->Err_0@ == missing@,
        },
{
    match arg {
        Some(s) => Ok(s.clone()),
        None => Err(String::from_str(missing)),
    }
}

/// Checks a tool call's arguments, records the path it names, and confines
/// that path to the workspace. The answer is the file operation to perform,
/// or the reason the call is refused.
pub fn execute_tool(
    state: &mut ServerState,
    time: u128,
    workspace: &str,
    tool_name: &str,
    args: &ToolArgs,
) -> (r: Result<ToolAction, String>)
    requires
        old(state).wf(),
    ensures
        final(state).wf(),
        final(state)@ == (ServerView {
            logs: append_logs(old(state)@.logs, time, plan_tool(workspace@, tool_name@, args@).0),
            ..old(state)@
        }),
        action_result_view(r) == plan_tool(workspace@, tool_name@, args@).1,
{
    let ghost base = state@.logs;
    let ghost none: Seq<(Seq<char>, Seq<char>)> = Seq::empty();
    assert(append_logs(base, time, none) == base);
    if str_eq(tool_name, "read_file") {
        let path = required(&args.path, "Missing path")?;
        log_message(state, time, "PATH", concat2("Raw: ", path.as_str()).as_str(), Ghost(base), Ghost(none));
        assert(none.push(path_log(path@)) =~= seq![path_log(path@)]);
        let full = validate_path(workspace, path.as_str())?;
        Ok(ToolAction::ReadFile { path: full })
    } else if str_eq(tool_name, "write_file") {
        let path = required(&args.path, "Missing path")?;
        let content = required(&args.content, "Missing content")?;
        log_message(state, time, "PATH", concat2("Raw: ", path.as_str()).as_str(), Ghost(base), Ghost(none));
        assert(none.push(path_log(path@)) =~= seq![path_log(path@)]);
        let full = validate_path(workspace, path.as_str())?;
        Ok(ToolAction::WriteFile { path: full, content })
    } else if str_eq(tool_name, "list_files") {
        let path = required(&args.path, "Missing path")?;
        log_message(state, time, "PATH", concat2("Raw: ", path.as_str()).as_str(), Ghost(base), Ghost(none));
        assert(none.push(path_log(path@)) =~= seq![path_log(path@)]);
        let full = validate_path(workspace, path.as_str())?;
        Ok(ToolAction::ListFiles { path: full })
    } else if str_eq(tool_name, "search_files") {
        let path = required(&args.path, "Missing path")?;
        let query = required(&args.query, "Missing query")?;
        let mut msg = concat2("Raw: ", path.as_str());
        msg.append(" | Query: ");
        msg.append(query.as_str());
        log_message(state, time, "PATH", msg.as_str(), Ghost(base), Ghost(none));
        assert(none.push(search_log(path@, query@)) =~= seq![search_log(path@, query@)]);
        let full = validate_path(workspace, path.as_str())?;
        let pattern = compile_pattern(query.as_str())?;
        Ok(ToolAction::SearchFiles { path: full, pattern })
    } else if str_eq(tool_name, "delete_file") {
        let path = required(&args.path, "Missing path")?;
        log_message(state, time, "PATH", concat2("Raw: ", path.as_str()).as_str(), Ghost(base), Ghost(none));
        assert(none.push(path_log(path@)) =~= seq![path_log(path@)]);
        let full = validate_path(workspace, path.as_str())?;
        Ok(ToolAction::DeleteFile { path: full })
    } else {
        Err(String::from_str("Unknown tool"))
    }
}

// ---------------------------------------------------------------------
// Dispatch
// ---------------------------------------------------------------------

/// The log message that records how a request was answered.
pub open spec fn status_log(reply: ReplyView) -> (Seq<char>, Seq<char>) {
    match reply {
        ReplyView::Failure(_, m) => ("ERR"@, "Error: "@ + m),
        _ => ("RES"@, "Success"@),
    }
}

/// An answer given now, after the messages `logs` and its status message.
pub open spec fn answered(logs: Seq<(Seq<char>, Seq<char>)>, reply: ReplyView) -> (
    Seq<(Seq<char>, Seq<char>)>,
    StepView,
) {
    (logs.push(status_log(reply)), StepView::Reply(reply))
}

/// The messages a request records and what the dispatcher asks for.
///
/// A notification is recorded and gets no body. Any other request is
/// recorded with its parameters and then: `initialize` is answered with
/// the server's description, `tools/list` with the tool catalogue,
/// `tools/call` runs the named tool (or fails with [`INVALID_PARAMS`]
/// without parameters, or [`TOOL_ERROR`] when the tool refuses), and any
/// other method fails with [`METHOD_NOT_FOUND`].
pub open spec fn dispatch(workspace: Seq<char>, req: RequestView) -> (
    Seq<(Seq<char>, Seq<char>)>,
    StepView,
) {
    if !req.has_id {
        (
            seq![("INFO"@, "Notification received: "@ + req.method)],
            StepView::Reply(ReplyView::NoContent),
        )
    } else {
        let first = seq![("REQ"@, "Method: "@ + req.method + " | Params: "@ + req.params_text)];
        if req.method == "initialize"@ {
            answered(first, ReplyView::Success(ResultView::Initialize(server_info_view())))
        } else if req.method == "tools/list"@ {
            answered(first, ReplyView::Success(ResultView::ToolsList(tool_catalog_view())))
        } else if req.method == "tools/call"@ {
            match req.params {
                None => answered(first, ReplyView::Failure(INVALID_PARAMS, "Missing params"@)),
                Some(call) => {
                    let name = match call.name {
                        Some(n) => n,
                        None => Seq::empty(),
                    };
                    let (msgs, plan) = plan_tool(workspace, name, call.arguments);
                    match plan {
                        Ok(a) => (first + msgs, StepView::RunTool(a)),
                        Err(e) => answered(first + msgs, ReplyView::Failure(TOOL_ERROR, e)),
                    }
                },
            }
        } else {
            answered(first, ReplyView::Failure(METHOD_NOT_FOUND, "Method not found"@))
        }
    }
}

/// Records how a request was answered.
fn record_status(
    state: &mut ServerState,
    time: u128,
    reply: &RpcReply,
    Ghost(base): Ghost<Seq<LogView>>,
    Ghost(msgs): Ghost<Seq<(Seq<char>, Seq<char>)>>,
)
    requires
        old(state).wf(),
        old(state)@.logs == append_logs(base, time, msgs),
    ensures
        final(state).wf(),
        final(state)@ == (ServerView {
            logs: append_logs(base, time, msgs.push(status_log(reply@))),
            ..old(state)@
        }),
{
    match reply {
        RpcReply::Failure(f) => {
            let msg = concat2("Error: ", f.message.as_str());
            log_message(state, time, "ERR", msg.as_str(), Ghost(base), Ghost(msgs));
        },
        _ => {
            log_message(state, time, "RES", "Success", Ghost(base), Ghost(msgs));
        },
    }
}

fn failure(code: i32, message: &str) -> (r: RpcReply)
    ensures
        r@ == ReplyView::Failure(code, message@),
{
    RpcReply::Failure(RpcFailure { code, message: String::from_str(message) })
}

/// Dispatches a request at `time` (milliseconds since the Unix epoch):
/// records it in the log, and either answers it or names the file operation
/// that a tool call asks for.
pub fn handle_mcp_request(state: &mut ServerState, time: u128, req: &RpcRequest) -> (r: RpcStep)
    requires
        old(state).wf(),
    ensures
        final(state).wf(),
        final(state)@ == (ServerView {
            logs: append_logs(old(state)@.logs, time, dispatch(old(state)@.workspace, req@).0),
            ..old(state)@
        }),
        r@ == dispatch(old(state)@.workspace, req@).1,
{
    let ghost base = state@.logs;
    let ghost none: Seq<(Seq<char>, Seq<char>)> = Seq::empty();
    assert(append_logs(base, time, none) == base);
    let workspace = String::from_str(state.workspace());
    if !req.has_id {
        let msg = concat2("Notification received: ", req.method.as_str());
        log_message(state, time, "INFO", msg.as_str(), Ghost(base), Ghost(none));
        assert(none.push(("INFO"@, msg@)) =~= seq![("INFO"@, msg@)]);
        return RpcStep::Reply(RpcReply::NoContent);
    }
    let mut msg = concat2("Method: ", req.method.as_str());
    msg.append(" | Params: ");
    msg.append(req.params_text.as_str());
    log_message(state, time, "REQ", msg.as_str(), Ghost(base), Ghost(none));
    let ghost first = seq![("REQ"@, msg@)];
    assert(none.push(("REQ"@, msg@)) =~= first);
    let method = req.method.as_str();
    let reply = if str_eq(method, "initialize") {
        RpcReply::Success(RpcResult::Initialize(server_info()))
    } else if str_eq(method, "tools/list") {
        RpcReply::Success(RpcResult::ToolsList(tool_catalog()))
    } else if str_eq(method, "tools/call") {
        match &req.params {
            None => failure(INVALID_PARAMS, "Missing params"),
            Some(call) => {
                let name = match &call.name {
                    Some(n) => n.clone(),
                    None => String::new(),
                };
                let ghost before = state@.logs;
                let ghost msgs = plan_tool(workspace@, name@, call.arguments@).0;
                let planned = execute_tool(state, time, workspace.as_str(), name.as_str(), &call.arguments);
                proof {
                    lemma_append_logs_concat(base, time, first, msgs);
                }
                match planned {
                    Ok(action) => {
                        return RpcStep::RunTool(action);
                    },
                    Err(e) => {
                        let reply = RpcReply::Failure(RpcFailure { code: TOOL_ERROR, message: e });
                        record_status(state, time, &reply, Ghost(base), Ghost(first + msgs));
                        return RpcStep::Reply(reply);
                    },
                }
            },
        }
    } else {
        failure(METHOD_NOT_FOUND, "Method not found")
    };
    record_status(state, time, &reply, Ghost(base), Ghost(first));
    RpcStep::Reply(reply)
}

// ---------------------------------------------------------------------
// Outcomes of file operations
// ---------------------------------------------------------------------

/// Why a file operation failed, with the error's text.
pub enum ToolFailure {
    Read(String),
    CreateDir(String),
    Write(String),
    Delete(String),
}

/// What a file operation came to.
pub enum ToolOutcome {
    /// The file's content.
    Read(String),
    Wrote,
    /// The entries' paths relative to the listed folder.
    Listed(Vec<String>),
    /// The matching lines, as [`search_file`] reports them.
    Searched(Vec<String>),
    Deleted,
    Failed(ToolFailure),
}

pub enum FaultView {
    Read(Seq<char>),
    CreateDir(Seq<char>),
    Write(Seq<char>),
    Delete(Seq<char>),
}

pub enum OutcomeView {
    Read(Seq<char>),
    Wrote,
    Listed(Seq<Seq<char>>),
    Searched(Seq<Seq<char>>),
    Deleted,
    Failed(FaultView),
}

impl View for ToolFailure {
    type V = FaultView;

    open spec fn view(&self) -> FaultView {
        match self {
            ToolFailure::Read(e) => FaultView::Read(e@),
            ToolFailure::CreateDir(e) => FaultView::CreateDir(e@),
            ToolFailure::Write(e) => FaultView::Write(e@),
            ToolFailure::Delete(e) => FaultView::Delete(e@),
        }
    }
}

impl View for ToolOutcome {
    type V = OutcomeView;

    open spec fn view(&self) -> OutcomeView {
        match self {
            ToolOutcome::Read(c) => OutcomeView::Read(c@),
            ToolOutcome::Wrote => OutcomeView::Wrote,
            ToolOutcome::Listed(es) => OutcomeView::Listed(strings_view(es@)),
            ToolOutcome::Searched(ms) => OutcomeView::Searched(strings_view(ms@)),
            ToolOutcome::Deleted => OutcomeView::Deleted,
            ToolOutcome::Failed(f) => OutcomeView::Failed(f@),
        }
    }
}

/// The non-empty strings of `s`, in order.
pub open spec fn non_empty(s: Seq<Seq<char>>) -> Seq<Seq<char>>
    decreases s.len(),
{
    if s.len() == 0 {
        Seq::empty()
    } else if s.last().len() > 0 {
        non_empty(s.drop_last()).push(s.last())
    } else {
        non_empty(s.drop_last())
    }
}

/// The text a tool answers with, or its error message.
pub open spec fn outcome_text(o: OutcomeView) -> Result<Seq<char>, Seq<char>> {
    match o {
        OutcomeView::Read(c) => Ok(c),
        OutcomeView::Wrote => Ok("Success"@),
        OutcomeView::Listed(es) => Ok(join_lines(non_empty(es))),
        OutcomeView::Searched(ms) => Ok(join_lines(ms)),
        OutcomeView::Deleted => Ok("Deleted"@),
        OutcomeView::Failed(FaultView::Read(e)) => Err("Read failed: "@ + e),
        OutcomeView::Failed(FaultView::CreateDir(e)) => Err("Dir creation failed: "@ + e),
        OutcomeView::Failed(FaultView::Write(e)) => Err("Write failed: "@ + e),
        OutcomeView::Failed(FaultView::Delete(e)) => Err("Delete failed: "@ + e),
    }
}

/// The answer to a tool call whose operation came to `o`.
pub open spec fn outcome_reply(o: OutcomeView) -> ReplyView {
    match outcome_text(o) {
        Ok(t) => ReplyView::Success(ResultView::Text(t)),
        Err(e) => ReplyView::Failure(TOOL_ERROR, e),
    }
}

/// The non-empty strings of `v`.
fn keep_non_empty(v: &Vec<String>) -> (r: Vec<String>)
    ensures
        strings_view(r@) == non_empty(strings_view(v@)),
{
    let mut r: Vec<String> = Vec::new();
    let mut i: usize = 0;
    while i < v.len()
        invariant
            i <= v@.len(),
            strings_view(r@) == non_empty(strings_view(v@.take(i as int))),
        decreases v@.len() - i,
    {
        let ghost prev = strings_view(v@.take(i as int));
        assert(strings_view(v@.take(i + 1)) =~= prev.push(v@[i as int]@));
        assert(prev.push(v@[i as int]@).drop_last() =~= prev);
        if !v[i].as_str().is_empty() {
            let ghost old_r = strings_view(r@);
            r.push(v[i].clone());
            assert(strings_view(r@) =~= old_r.push(v@[i as int]@));
        }
        i = i + 1;
    }
    assert(v@.take(v@.len() as int) =~= v@);
    r
}

/// The text of a successful operation, or the error message of a failed one.
fn tool_text(outcome: &ToolOutcome) -> (r: Result<String, String>)
    ensures
        result_view(r) == outcome_text(outcome@),
{
    match outcome {
        ToolOutcome::Read(c) => Ok(c.clone()),
        ToolOutcome::Wrote => Ok(String::from_str("Success")),
        ToolOutcome::Listed(es) => Ok(join_with_newlines(&keep_non_empty(es))),
        ToolOutcome::Searched(ms) => Ok(join_with_newlines(ms)),
        ToolOutcome::Deleted => Ok(String::from_str("Deleted")),
        ToolOutcome::Failed(ToolFailure::Read(e)) => Err(concat2("Read failed: ", e.as_str())),
        ToolOutcome::Failed(ToolFailure::CreateDir(e)) => Err(concat2("Dir creation failed: ", e.as_str())),
        ToolOutcome::Failed(ToolFailure::Write(e)) => Err(concat2("Write failed: ", e.as_str())),
        ToolOutcome::Failed(ToolFailure::Delete(e)) => Err(concat2("Delete failed: ", e.as_str())),
    }
}

/// Answers a tool call whose file operation came to `outcome`, and records
/// the answer in the log at `time`.
pub fn finish_tool_call(state: &mut ServerState, time: u128, outcome: &ToolOutcome) -> (r: RpcReply)
    requires
        old(state).wf(),
    ensures
        final(state).wf(),
        r@ == outcome_reply(outcome@),
        final(state)@ == (ServerView {
            logs: log_push(
                old(state)@.logs,
                (LogView { time, level: status_log(r@).0, message: status_log(r@).1 }),
            ),
            ..old(state)@
        }),
{
    let ghost base = state@.logs;
    let ghost none: Seq<(Seq<char>, Seq<char>)> = Seq::empty();
    assert(append_logs(base, time, none) == base);
    let reply = match tool_text(outcome) {
        Ok(t) => RpcReply::Success(RpcResult::Text(t)),
        Err(e) => RpcReply::Failure(RpcFailure { code: TOOL_ERROR, message: e }),
    };
    record_status(state, time, &reply, Ghost(base), Ghost(none));
    assert(none.push(status_log(reply@)).drop_last() =~= none);
    reply
}

/// The report of a matching line: the file's display path, the line's
/// number (counted from 1) and the line, separated by colons.
pub open spec fn match_report(display: Seq<char>, number: nat, line: Seq<char>) -> Seq<char> {
    display + seq![':'] + decimal_text(number) + seq![':'] + line
}

/// The reports of the lines of `lines` that `pattern` matches, in order.
pub open spec fn search_reports(pattern: Seq<char>, display: Seq<char>, lines: Seq<Seq<char>>) -> Seq<
    Seq<char>,
>
    decreases lines.len(),
{
    if lines.len() == 0 {
        Seq::empty()
    } else {
        let prev = search_reports(pattern, display, lines.drop_last());
        if regex_is_match(pattern, lines.last()) {
            prev.push(match_report(display, lines.len(), lines.last()))
        } else {
            prev
        }
    }
}

/// Searches one file's content: reports each line that `pattern` matches,
/// naming the file by `display`.
pub fn search_file(pattern: &Pattern, display: &str, content: &str) -> (r: Vec<String>)
    ensures
        strings_view(r@) == search_reports(pattern@, display@, text_lines(content@)),
{
    let lines = split_lines(content);
    let ghost ls = strings_view(lines@);
    let mut r: Vec<String> = Vec::new();
    let mut i: usize = 0;
    while i < lines.len()
        invariant
            i <= lines@.len(),
            ls == strings_view(lines@),
            strings_view(r@) == search_reports(pattern@, display@, ls.take(i as int)),
        decreases lines@.len() - i,
    {
        assert(ls.take(i + 1).drop_last() =~= ls.take(i as int));
        assert(ls.take(i + 1).last() == lines@[i as int]@);
        if pattern.is_match(lines[i].as_str()) {
            proof {
                reveal_strlit(":");
            }
            let number: u64 = (i + 1) as u64;
            assert(number as nat == (i + 1) as nat);
            let mut report = concat2(display, ":");
            report.append(decimal(number).as_str());
            report.append(":");
            report.append(lines[i].as_str());
            assert(match_report(display@, (i + 1) as nat, lines@[i as int]@) =~= report@);
            let ghost old_r = strings_view(r@);
            r.push(report);
            assert(strings_view(r@) =~= old_r.push(
                match_report(display@, (i + 1) as nat, lines@[i as int]@),
            ));
        }
        i = i + 1;
    }
    assert(ls.take(ls.len() as int) =~= ls);
    r
}

// ---------------------------------------------------------------------
// Laws
// ---------------------------------------------------------------------

/// The path a file operation works on.
pub open spec fn action_path(a: ActionView) -> Seq<char> {
    match a {
        ActionView::ReadFile(p) => p,
        ActionView::WriteFile(p, _) => p,
        ActionView::ListFiles(p) => p,
        ActionView::SearchFiles(p, _) => p,
        ActionView::DeleteFile(p) => p,
    }
}

/// The argument of a call that a parameter name stands for.
pub open spec fn argument(args: ArgsView, param: Seq<char>) -> Option<Seq<char>> {
    if param == "path"@ {
        args.path
    } else if param == "content"@ {
        args.content
    } else if param == "query"@ {
        args.query
    } else {
        None
    }
}

/// The name of a tool call.
pub open spec fn call_name(call: CallView) -> Seq<char> {
    match call.name {
        Some(n) => n,
        None => Seq::empty(),
    }
}

/// No file operation leaves the workspace: every operation the dispatcher
/// asks for names a path whose normalised text lies in the workspace.
pub proof fn lemma_operations_stay_in_workspace(workspace: Seq<char>, req: RequestView)
    requires
        dispatch(workspace, req).1 is RunTool,
    ensures
        in_workspace(
            workspace_prefix(workspace),
            normalized(action_path(dispatch(workspace, req).1->RunTool_0)),
        ),
{
    let call = req.params->Some_0;
    let name = call_name(call);
    let args = call.arguments;
    let p = args.path->Some_0;
    lemma_accepted_path_in_workspace(workspace, p);
}

/// A notification is recorded once and answered without a body.
pub proof fn lemma_notification_unanswered(workspace: Seq<char>, req: RequestView)
    requires
        !req.has_id,
    ensures
        dispatch(workspace, req).1 == StepView::Reply(ReplyView::NoContent),
        dispatch(workspace, req).0.len() == 1,
        dispatch(workspace, req).0[0].0 == "INFO"@,
{
}

/// A request with an id is recorded first, with its method and parameters;
/// when it is answered at once, its answer's status is recorded last, as
/// `ERR` exactly when it is an error.
pub proof fn lemma_requests_recorded(workspace: Seq<char>, req: RequestView)
    requires
        req.has_id,
    ensures
        dispatch(workspace, req).0.len() >= 1,
        dispatch(workspace, req).0[0] == ("REQ"@, "Method: "@ + req.method + " | Params: "@
            + req.params_text),
        dispatch(workspace, req).1 matches StepView::Reply(reply) ==> {
            &&& !(reply is NoContent)
            &&& dispatch(workspace, req).0.last() == status_log(reply)
            &&& (status_log(reply).0 == "ERR"@ <==> reply is Failure)
        },
{
    reveal_strlit("ERR");
    reveal_strlit("RES");
    assert("ERR"@[0] != "RES"@[0]);
}

/// A method other than `initialize`, `tools/list` and `tools/call` is
/// answered with [`METHOD_NOT_FOUND`].
pub proof fn lemma_unknown_method(workspace: Seq<char>, req: RequestView)
    requires
        req.has_id,
        req.method != "initialize"@,
        req.method != "tools/list"@,
        req.method != "tools/call"@,
    ensures
        dispatch(workspace, req).1 == StepView::Reply(
            ReplyView::Failure(METHOD_NOT_FOUND, "Method not found"@),
        ),
{
}

/// Every tool of the catalogue is one the dispatcher runs: a call that
/// gives it all the parameters the catalogue lists is never refused as
/// unknown or for a missing argument. It is refused only when its path
/// leaves the workspace, or, for a search, when its query is no valid
/// expression; otherwise it asks for the operation on the confined path.
pub proof fn lemma_catalogue_tools_run(workspace: Seq<char>, i: int, args: ArgsView)
    requires
        0 <= i < tool_catalog_view().len(),
        forall|j: int|
            0 <= j < tool_catalog_view()[i].params.len() ==> #[trigger] argument(
                args,
                tool_catalog_view()[i].params[j],
            ) is Some,
    ensures
        ({
            let plan = plan_tool(workspace, tool_catalog_view()[i].name, args).1;
            let p = args.path->Some_0;
            &&& plan is Err ==> {
                ||| validate_spec(workspace, p) is Err && plan->Err_0 == validate_spec(
                    workspace,
                    p,
                )->Err_0
                ||| tool_catalog_view()[i].name == "search_files"@ && regex_compile_error(
                    args.query->Some_0,
                ) == Some(plan->Err_0)
            }
            &&& plan is Ok ==> validate_spec(workspace, p) is Ok && action_path(plan->Ok_0)
                == validate_spec(workspace, p)->Ok_0
        }),
{
    reveal_strlit("read_file");
    reveal_strlit("write_file");
    reveal_strlit("list_files");
    reveal_strlit("search_files");
    reveal_strlit("delete_file");
    reveal_strlit("path");
    reveal_strlit("content");
    reveal_strlit("query");
    let t = tool_catalog_view()[i];
    assert(argument(args, t.params[0]) is Some);
    if t.params.len() > 1 {
        assert(argument(args, t.params[1]) is Some);
    }
    assert("path"@[0] != "content"@[0] && "path"@[0] != "query"@[0]);
    assert("content"@[0] != "query"@[0]);
    assert("read_file"@[0] != "write_file"@[0]);
    assert("list_files"@[0] != "read_file"@[0] && "list_files"@[0] != "write_file"@[0]);
    assert("search_files"@[0] != "read_file"@[0] && "search_files"@[0] != "write_file"@[0]
        && "search_files"@[0] != "list_files"@[0]);
    assert("delete_file"@[0] != "read_file"@[0] && "delete_file"@[0] != "write_file"@[0]
        && "delete_file"@[0] != "list_files"@[0] && "delete_file"@[0] != "search_files"@[0]);
}

/// A tool name outside the catalogue is refused as unknown, and nothing is
/// recorded for it.
pub proof fn lemma_unknown_tool(workspace: Seq<char>, name: Seq<char>, args: ArgsView)
    requires
        forall|i: int| 0 <= i < tool_catalog_view().len() ==> #[trigger] tool_catalog_view()[i].name != name,
    ensures
        plan_tool(workspace, name, args) == (
            Seq::<(Seq<char>, Seq<char>)>::empty(),
            Err::<ActionView, Seq<char>>("Unknown tool"@),
        ),
{
    assert(tool_catalog_view()[0].name != name);
    assert(tool_catalog_view()[1].name != name);
    assert(tool_catalog_view()[2].name != name);
    assert(tool_catalog_view()[3].name != name);
    assert(tool_catalog_view()[4].name != name);
}

/// Each parameter the catalogue lists for a tool is one its call needs:
/// when the earlier listed parameters are given and this one is not, the
/// call is refused with `Missing <parameter>` before anything is recorded.
/// With [`lemma_catalogue_tools_run`], the catalogue lists exactly the
/// arguments each tool reads.
pub proof fn lemma_catalogue_params_required(workspace: Seq<char>, i: int, j: int, args: ArgsView)
    requires
        0 <= i < tool_catalog_view().len(),
        0 <= j < tool_catalog_view()[i].params.len(),
        forall|k: int| 0 <= k < j ==> #[trigger] argument(args, tool_catalog_view()[i].params[k]) is Some,
        argument(args, tool_catalog_view()[i].params[j]) is None,
    ensures
        plan_tool(workspace, tool_catalog_view()[i].name, args) == (
            Seq::<(Seq<char>, Seq<char>)>::empty(),
            Err::<ActionView, Seq<char>>("Missing "@ + tool_catalog_view()[i].params[j]),
        ),
{
    reveal_strlit("read_file");
    reveal_strlit("write_file");
    reveal_strlit("list_files");
    reveal_strlit("search_files");
    reveal_strlit("delete_file");
    reveal_strlit("path");
    reveal_strlit("content");
    reveal_strlit("query");
    reveal_strlit("Missing ");
    reveal_strlit("Missing path");
    reveal_strlit("Missing content");
    reveal_strlit("Missing query");
    assert("path"@[0] != "content"@[0] && "path"@[0] != "query"@[0]);
    assert("content"@[0] != "query"@[0]);
    assert("read_file"@[0] != "write_file"@[0]);
    assert("list_files"@[0] != "read_file"@[0] && "list_files"@[0] != "write_file"@[0]);
    assert("search_files"@[0] != "read_file"@[0] && "search_files"@[0] != "write_file"@[0]
        && "search_files"@[0] != "list_files"@[0]);
    assert("delete_file"@[0] != "read_file"@[0] && "delete_file"@[0] != "write_file"@[0]
        && "delete_file"@[0] != "list_files"@[0] && "delete_file"@[0] != "search_files"@[0]);
    assert("Missing "@ + "path"@ =~= "Missing path"@);
    assert("Missing "@ + "content"@ =~= "Missing content"@);
    assert("Missing "@ + "query"@ =~= "Missing query"@);
    let t = tool_catalog_view()[i];
    if j == 1 {
        assert(argument(args, t.params[0]) is Some);
    }
}

/// A tool call that is not refused asks for the operation its name
/// stands for, on the path that validation accepted for its `path`
/// argument, carrying its other arguments unchanged: a write writes exactly
/// the `content` it was given, and a search searches with exactly its
/// `query`, which compiles.
pub proof fn lemma_tool_actions_carry_arguments(workspace: Seq<char>, name: Seq<char>, args: ArgsView)
    requires
        plan_tool(workspace, name, args).1 is Ok,
    ensures
        ({
            let a = plan_tool(workspace, name, args).1->Ok_0;
            &&& args.path is Some
            &&& validate_spec(workspace, args.path->Some_0) == Ok::<Seq<char>, Seq<char>>(
                action_path(a),
            )
            &&& match a {
                ActionView::ReadFile(_) => name == "read_file"@,
                ActionView::WriteFile(_, c) => name == "write_file"@ && args.content == Some(c),
                ActionView::ListFiles(_) => name == "list_files"@,
                ActionView::SearchFiles(_, q) => {
                    &&& name == "search_files"@
                    &&& args.query == Some(q)
                    &&& regex_compile_error(q) is None
                },
                ActionView::DeleteFile(_) => name == "delete_file"@,
            }
        }),
{
}

/// A search reports a line exactly when the expression matches that line's
/// own text: for every line that matches, its report (the display path,
/// the line's number counted from 1, and the line, separated by colons) is
/// among the results, and every result is the report of a matching line.
pub proof fn lemma_search_reports_matching_lines(
    pattern: Seq<char>,
    display: Seq<char>,
    lines: Seq<Seq<char>>,
)
    ensures
        forall|k: int|
            0 <= k < lines.len() && regex_is_match(pattern, #[trigger] lines[k]) ==> search_reports(
                pattern,
                display,
                lines,
            ).contains(display + seq![':'] + decimal_text((k + 1) as nat) + seq![':'] + lines[k]),
        forall|r: Seq<char>|
            #[trigger] search_reports(pattern, display, lines).contains(r) ==> exists|k: int|
                0 <= k < lines.len() && regex_is_match(pattern, #[trigger] lines[k]) && r == display
                    + seq![':'] + decimal_text((k + 1) as nat) + seq![':'] + lines[k],
    decreases lines.len(),
{
    if lines.len() > 0 {
        let init = lines.drop_last();
        lemma_search_reports_matching_lines(pattern, display, init);
        let prev = search_reports(pattern, display, init);
        let res = search_reports(pattern, display, lines);
        let last = (lines.len() - 1) as int;
        assert forall|k: int|
            0 <= k < lines.len() && regex_is_match(pattern, #[trigger] lines[k]) implies res.contains(
                display + seq![':'] + decimal_text((k + 1) as nat) + seq![':'] + lines[k],
            ) by {
            let rep = display + seq![':'] + decimal_text((k + 1) as nat) + seq![':'] + lines[k];
            if k < last {
                assert(init[k] == lines[k]);
                assert(prev.contains(rep));
                let m = choose|m: int| 0 <= m < prev.len() && prev[m] == rep;
                if regex_is_match(pattern, lines.last()) {
                    assert(res[m] == prev[m]);
                }
            } else {
                assert(lines.last() == lines[k]);
                assert(rep =~= match_report(display, lines.len(), lines.last()));
                assert(res[res.len() - 1] == rep);
            }
        }
        assert forall|r: Seq<char>| #[trigger] res.contains(r) implies exists|k: int|
            0 <= k < lines.len() && regex_is_match(pattern, #[trigger] lines[k]) && r == display
                + seq![':'] + decimal_text((k + 1) as nat) + seq![':'] + lines[k] by {
            let m = choose|m: int| 0 <= m < res.len() && res[m] == r;
            if m < prev.len() {
                assert(prev[m] == r);
                assert(prev.contains(r));
                let k = choose|k: int|
                    0 <= k < init.len() && regex_is_match(pattern, #[trigger] init[k]) && r == display
                        + seq![':'] + decimal_text((k + 1) as nat) + seq![':'] + init[k];
                assert(init[k] == lines[k]);
            } else {
                assert(lines.last() == lines[last]);
                assert(r =~= display + seq![':'] + decimal_text((last + 1) as nat) + seq![':']
                    + lines[last]);
            }
        }
    }
}

/// A listing keeps every non-empty entry, in order, and drops only the
/// empty ones: it is the filter of the entries by being non-empty.
pub proof fn lemma_listing_keeps_non_empty_entries(s: Seq<Seq<char>>)
    ensures
        non_empty(s) == s.filter(|x: Seq<char>| x.len() > 0),
    decreases s.len(),
{
    reveal_with_fuel(Seq::<Seq<char>>::filter, 1);
    if s.len() > 0 {
        lemma_listing_keeps_non_empty_entries(s.drop_last());
    }
}

} // verus!
