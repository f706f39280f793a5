//! The Model Context Protocol server's decisions: which JSON-RPC method a
//! request names, which tools exist, whether a tool call is well formed,
//! what a tool asks of the terminal, and the texts it answers with when no
//! terminal is connected.

use vstd::prelude::*;
use crate::text::{append_str, decimal, str_eq, u64_to_decimal};

verus! {

/// Session information.
#[derive(Debug, Clone)]
pub struct SessionInfo {
    pub id: String,
    pub name: String,
    pub cwd: String,
    pub project_id: Option<String>,
    pub is_active: bool,
}

/// A history entry, command or output.
#[derive(Debug, Clone)]
pub struct HistoryEntry {
    pub timestamp: i64,
    pub content: String,
    /// "command" or "output"
    pub entry_type: String,
}

/// An MCP resource.
#[derive(Debug, Clone)]
pub struct McpResource {
    pub uri: String,
    pub name: String,
    pub description: Option<String>,
    pub mime_type: Option<String>,
}

/// An MCP error.
#[derive(Debug, Clone, PartialEq, Eq)]
pub struct McpError {
    pub code: i32,
    pub message: String,
}

/// Invalid parameters (JSON-RPC).
pub const INVALID_PARAMS: i32 = -32602;

/// Internal error (JSON-RPC).
pub const INTERNAL_ERROR: i32 = -32603;

/// Method not found (JSON-RPC).
pub const METHOD_NOT_FOUND: i32 = -32601;

/// A tool's name and description.
#[derive(Debug, Clone)]
pub struct ToolSpec {
    pub name: String,
    pub description: String,
}

/// The tools the server offers, by name and description, in order.
pub open spec fn tool_catalog() -> Seq<(Seq<char>, Seq<char>)> {
    seq![
        ("execute_command"@, "Execute a shell command in the terminal"@),
        ("get_terminal_output"@, "Get recent terminal output"@),
        ("list_sessions"@, "List all terminal sessions"@),
        ("create_session"@, "Create a new terminal session"@),
        ("switch_session"@, "Switch to a different terminal session"@),
        ("search_history"@, "Search command or output history"@),
    ]
}

/// The view of a tool.
pub open spec fn tool_view(t: ToolSpec) -> (Seq<char>, Seq<char>) {
    (t.name@, t.description@)
}

fn tool(name: &str, description: &str) -> (t: ToolSpec)
    ensures
        tool_view(t) == (name@, description@),
{
    ToolSpec { name: name.to_owned(), description: description.to_owned() }
}

/// The tools the server offers.
pub fn default_tools() -> (tools: Vec<ToolSpec>)
    ensures
        tools@.map_values(|t: ToolSpec| tool_view(t)) == tool_catalog(),
{
    let tools = vec![
        tool("execute_command", "Execute a shell command in the terminal"),
        tool("get_terminal_output", "Get recent terminal output"),
        tool("list_sessions", "List all terminal sessions"),
        tool("create_session", "Create a new terminal session"),
        tool("switch_session", "Switch to a different terminal session"),
        tool("search_history", "Search command or output history"),
    ];
    assert(tools@.map_values(|t: ToolSpec| tool_view(t)) =~= tool_catalog());
    tools
}

/// What a JSON-RPC method asks for.
#[derive(Debug, Clone, Copy, PartialEq, Eq, Structural)]
pub enum McpMethod {
    ListTools,
    CallTool,
    ListResources,
    Unknown,
}

/// The method a name stands for.
pub open spec fn method_named(name: Seq<char>) -> McpMethod {
    if name == "tools/list"@ {
        McpMethod::ListTools
    } else if name == "tools/call"@ {
        McpMethod::CallTool
    } else if name == "resources/list"@ {
        McpMethod::ListResources
    } else {
        McpMethod::Unknown
    }
}

/// The method a request names.
pub fn method_of(name: &str) -> (m: McpMethod)
    ensures
        m == method_named(name@),
{
    if str_eq(name, "tools/list") {
        McpMethod::ListTools
    } else if str_eq(name, "tools/call") {
        McpMethod::CallTool
    } else if str_eq(name, "resources/list") {
        McpMethod::ListResources
    } else {
        McpMethod::Unknown
    }
}

/// The answer to a method that does not exist.
pub fn method_not_found() -> (e: McpError)
    ensures
        e.code == METHOD_NOT_FOUND,
        e.message@ == "Method not found"@,
{
    McpError { code: METHOD_NOT_FOUND, message: "Method not found".to_owned() }
}

/// The arguments of a tool call that the tools read: texts and numbers,
/// each absent when the call does not give it (or gives another kind of
/// value).
#[derive(Debug, Clone)]
pub struct ToolArgs {
    pub command: Option<String>,
    pub cwd: Option<String>,
    pub timeout_ms: Option<u64>,
    pub lines: Option<u64>,
    pub session_id: Option<String>,
    pub name: Option<String>,
    pub project_id: Option<String>,
    pub query: Option<String>,
    /// The `type` argument
    pub search_type: Option<String>,
}

/// The parameters of a `tools/call` request: the tool's name (when it is
/// a text) and its arguments (when given).
#[derive(Debug, Clone)]
pub struct ToolCall {
    pub name: Option<String>,
    pub arguments: Option<ToolArgs>,
}

/// A text option's characters.
pub open spec fn opt_view(o: Option<String>) -> Option<Seq<char>> {
    match o {
        Some(s) => Some(s@),
        None => None,
    }
}

/// The named tool's name, if the call names one of `tools`: a missing
/// name counts as the empty one.
pub open spec fn called_tool(tools: Seq<(Seq<char>, Seq<char>)>, name: Option<Seq<char>>) -> Option<Seq<char>> {
    let n = match name {
        Some(n) => n,
        None => Seq::empty(),
    };
    if exists|i: int| 0 <= i < tools.len() && tools[i].0 == n {
        Some(n)
    } else {
        None
    }
}

/// Checks a `tools/call` request: it needs parameters, and they must name
/// one of `tools`. The tool's name and the arguments when it does.
pub fn check_tool_call(tools: &[ToolSpec], params: Option<ToolCall>) -> (r: Result<(String, Option<ToolArgs>), McpError>)
    ensures
        match params {
            None => r matches Err(e) && e.code == INVALID_PARAMS && e.message@ == "Missing parameters"@,
            Some(call) => match called_tool(tools@.map_values(|t: ToolSpec| tool_view(t)), opt_view(call.name)) {
                Some(n) => r matches Ok((name, args)) && name@ == n && args == call.arguments,
                None => r matches Err(e) && e.code == INVALID_PARAMS && e.message@ == "Unknown tool: "@ + match opt_view(
                    call.name,
                ) {
                    Some(n) => n,
                    None => Seq::empty(),
                },
            },
        },
{
    match params {
        None => Err(McpError { code: INVALID_PARAMS, message: "Missing parameters".to_owned() }),
        Some(call) => {
            let name = match call.name {
                Some(n) => n,
                None => String::new(),
            };
            let ghost views = tools@.map_values(|t: ToolSpec| tool_view(t));
            let mut i: usize = 0;
            let mut found = false;
            while i < tools.len() && !found
                invariant
                    i <= tools@.len(),
                    views == tools@.map_values(|t: ToolSpec| tool_view(t)),
                    found ==> exists|k: int| 0 <= k < views.len() && views[k].0 == name@,
                    !found ==> forall|k: int| 0 <= k < i ==> (#[trigger] views[k]).0 != name@,
                decreases tools@.len() - i,
            {
                if str_eq(tools[i].name.as_str(), name.as_str()) {
                    assert(views[i as int].0 == name@);
                    found = true;
                }
                i = i + 1;
            }
            if found {
                Ok((name, call.arguments))
            } else {
                let mut m = "Unknown tool: ".to_owned();
                append_str(&mut m, name.as_str());
                Err(McpError { code: INVALID_PARAMS, message: m })
            }
        },
    }
}

/// What a tool asks of the terminal.
#[derive(Debug, Clone)]
pub enum BackendCall {
    ExecuteCommand { command: String, cwd: Option<String>, timeout_ms: Option<u64> },
    GetOutput { lines: u64, session_id: Option<String> },
    ListSessions,
    CreateSession { name: Option<String>, cwd: Option<String>, project_id: Option<String> },
    SwitchSession { session_id: String },
    SearchHistory { query: String, search_type: String },
}

/// The text of an option, or `default`.
pub open spec fn or_text(o: Option<String>, default: Seq<char>) -> Seq<char> {
    match o {
        Some(s) => s@,
        None => default,
    }
}

/// Whether `r` is what a call of `tool` with `args` asks of the terminal,
/// or the reason it cannot be made: a missing argument object or required
/// argument, or a tool without an implementation.
pub open spec fn backend_call_is(tool: Seq<char>, args: Option<ToolArgs>, r: Result<BackendCall, String>) -> bool {
    if tool == "execute_command"@ {
        match args {
            None => r matches Err(e) && e@ == "Missing arguments for execute_command"@,
            Some(a) => match a.command {
                None => r matches Err(e) && e@ == "Missing required parameter: command"@,
                Some(c) => r matches Ok(BackendCall::ExecuteCommand { command, cwd, timeout_ms }) && command == c
                    && cwd == a.cwd && timeout_ms == a.timeout_ms,
            },
        }
    } else if tool == "get_terminal_output"@ {
        let (lines, session) = match args {
            Some(a) => (a.lines, a.session_id),
            None => (None, None),
        };
        r matches Ok(BackendCall::GetOutput { lines: l, session_id }) && l == match lines {
            Some(n) => n,
            None => 100u64,
        } && session_id == session
    } else if tool == "list_sessions"@ {
        r matches Ok(BackendCall::ListSessions)
    } else if tool == "create_session"@ {
        match args {
            Some(a) => r matches Ok(BackendCall::CreateSession { name, cwd, project_id }) && name == a.name && cwd
                == a.cwd && project_id == a.project_id,
            None => r matches Ok(BackendCall::CreateSession { name, cwd, project_id }) && name is None && cwd is None
                && project_id is None,
        }
    } else if tool == "switch_session"@ {
        match args {
            None => r matches Err(e) && e@ == "Missing arguments for switch_session"@,
            Some(a) => match a.session_id {
                None => r matches Err(e) && e@ == "Missing required parameter: session_id"@,
                Some(id) => r matches Ok(BackendCall::SwitchSession { session_id }) && session_id == id,
            },
        }
    } else if tool == "search_history"@ {
        match args {
            None => r matches Err(e) && e@ == "Missing arguments for search_history"@,
            Some(a) => match a.query {
                None => r matches Err(e) && e@ == "Missing required parameter: query"@,
                Some(q) => r matches Ok(BackendCall::SearchHistory { query, search_type }) && query == q
                    && search_type@ == or_text(a.search_type, "all"@),
            },
        }
    } else {
        r matches Err(e) && e@ == "Tool not implemented: "@ + tool
    }
}

/// What a call of `tool` with `args` asks of the terminal, or why it
/// cannot be made.
pub fn backend_call(tool: &str, args: Option<ToolArgs>) -> (r: Result<BackendCall, String>)
    ensures
        backend_call_is(tool@, args, r),
{
    if str_eq(tool, "execute_command") {
        match args {
            None => Err("Missing arguments for execute_command".to_owned()),
            Some(a) => match a.command {
                None => Err("Missing required parameter: command".to_owned()),
                Some(c) => Ok(BackendCall::ExecuteCommand { command: c, cwd: a.cwd, timeout_ms: a.timeout_ms }),
            },
        }
    } else if str_eq(tool, "get_terminal_output") {
        let (lines, session_id) = match args {
            Some(a) => (a.lines, a.session_id),
            None => (None, None),
        };
        let n: u64 = match lines {
            Some(n) => n,
            None => 100,
        };
        Ok(BackendCall::GetOutput { lines: n, session_id })
    } else if str_eq(tool, "list_sessions") {
        Ok(BackendCall::ListSessions)
    } else if str_eq(tool, "create_session") {
        match args {
            Some(a) => Ok(BackendCall::CreateSession { name: a.name, cwd: a.cwd, project_id: a.project_id }),
            None => Ok(BackendCall::CreateSession { name: None, cwd: None, project_id: None }),
        }
    } else if str_eq(tool, "switch_session") {
        match args {
            None => Err("Missing arguments for switch_session".to_owned()),
            Some(a) => match a.session_id {
                None => Err("Missing required parameter: session_id".to_owned()),
                Some(id) => Ok(BackendCall::SwitchSession { session_id: id }),
            },
        }
    } else if str_eq(tool, "search_history") {
        match args {
            None => Err("Missing arguments for search_history".to_owned()),
            Some(a) => match a.query {
                None => Err("Missing required parameter: query".to_owned()),
                Some(q) => {
                    let t = text_or(&a.search_type, "all");
                    Ok(BackendCall::SearchHistory { query: q, search_type: t })
                },
            },
        }
    } else {
        let mut m = "Tool not implemented: ".to_owned();
        append_str(&mut m, tool);
        Err(m)
    }
}

/// The answer of a tool when no terminal is connected.
pub open spec fn placeholder(call: BackendCall) -> Seq<char> {
    match call {
        BackendCall::ExecuteCommand { command, cwd, timeout_ms } => "Command execution requested:\nCommand: "@
            + command@ + "\nCWD: "@ + or_text(cwd, "<current>"@) + "\nTimeout: "@ + decimal(
            match timeout_ms {
                Some(t) => t as nat,
                None => 30000nat,
            },
        ) + "ms\n\nNote: No backend configured. Use McpServer::with_backend() to connect terminal."@,
        BackendCall::GetOutput { lines, session_id } => "Terminal output retrieval:\nLines: "@ + decimal(
            lines as nat,
        ) + "\nSession: "@ + or_text(session_id, "<current>"@) + "\n\nNote: No backend configured."@,
        BackendCall::ListSessions => "Sessions:\n1. Default session (current)\n\nNote: No backend configured."@,
        BackendCall::CreateSession { name, cwd, project_id } => "Session creation requested:\nName: "@ + or_text(
            name,
            "<auto>"@,
        ) + "\nCWD: "@ + or_text(cwd, "<current>"@) + "\nProject: "@ + or_text(project_id, "<none>"@)
            + "\n\nNote: No backend configured."@,
        BackendCall::SwitchSession { session_id } => "Session switch requested:\nTarget: "@ + session_id@
            + "\n\nNote: No backend configured."@,
        BackendCall::SearchHistory { query, search_type } => "History search:\nQuery: "@ + query@ + "\nType: "@
            + search_type@ + "\n\nNote: No backend configured."@,
    }
}

/// The answer of a tool when no terminal is connected.
pub fn placeholder_text(call: &BackendCall) -> (s: String)
    ensures
        s@ == placeholder(*call),
{
    match call {
        BackendCall::ExecuteCommand { command, cwd, timeout_ms } => {
            let mut s = "Command execution requested:\nCommand: ".to_owned();
            append_str(&mut s, command.as_str());
            append_str(&mut s, "\nCWD: ");
            append_str(&mut s, text_or(cwd, "<current>").as_str());
            append_str(&mut s, "\nTimeout: ");
            let t: u64 = match timeout_ms {
                Some(t) => *t,
                None => 30000,
            };
            append_str(&mut s, u64_to_decimal(t).as_str());
            append_str(&mut s, "ms\n\nNote: No backend configured. Use McpServer::with_backend() to connect terminal.");
            s
        },
        BackendCall::GetOutput { lines, session_id } => {
            let mut s = "Terminal output retrieval:\nLines: ".to_owned();
            append_str(&mut s, u64_to_decimal(*lines).as_str());
            append_str(&mut s, "\nSession: ");
            append_str(&mut s, text_or(session_id, "<current>").as_str());
            append_str(&mut s, "\n\nNote: No backend configured.");
            s
        },
        BackendCall::ListSessions => "Sessions:\n1. Default session (current)\n\nNote: No backend configured.".to_owned(),
        BackendCall::CreateSession { name, cwd, project_id } => {
            let mut s = "Session creation requested:\nName: ".to_owned();
            append_str(&mut s, text_or(name, "<auto>").as_str());
            append_str(&mut s, "\nCWD: ");
            append_str(&mut s, text_or(cwd, "<current>").as_str());
            append_str(&mut s, "\nProject: ");
            append_str(&mut s, text_or(project_id, "<none>").as_str());
            append_str(&mut s, "\n\nNote: No backend configured.");
            s
        },
        BackendCall::SwitchSession { session_id } => {
            let mut s = "Session switch requested:\nTarget: ".to_owned();
            append_str(&mut s, session_id.as_str());
            append_str(&mut s, "\n\nNote: No backend configured.");
            s
        },
        BackendCall::SearchHistory { query, search_type } => {
            let mut s = "History search:\nQuery: ".to_owned();
            append_str(&mut s, query.as_str());
            append_str(&mut s, "\nType: ");
            append_str(&mut s, search_type.as_str());
            append_str(&mut s, "\n\nNote: No backend configured.");
            s
        },
    }
}

/// The answer after the terminal switched to `session_id`.
pub fn switched_text(session_id: &str) -> (s: String)
    ensures
        s@ == "Switched to session: "@ + session_id@,
{
    let mut s = "Switched to session: ".to_owned();
    append_str(&mut s, session_id);
    s
}

/// The answer after the terminal created a session, given its JSON.
pub fn created_text(json: &str) -> (s: String)
    ensures
        s@ == "Created session:\n"@ + json@,
{
    let mut s = "Created session:\n".to_owned();
    append_str(&mut s, json);
    s
}

/// The answer to a history search, given the number of matches and their
/// JSON.
pub fn search_results_text(count: usize, json: &str) -> (s: String)
    ensures
        s@ == "Search results ("@ + decimal(count as nat) + " matches):\n"@ + json@,
{
    let mut s = "Search results (".to_owned();
    append_str(&mut s, u64_to_decimal(count as u64).as_str());
    append_str(&mut s, " matches):\n");
    append_str(&mut s, json);
    s
}

/// The error a failed tool answers with.
pub fn tool_failed(message: String) -> (e: McpError)
    ensures
        e.code == INTERNAL_ERROR,
        e.message == message,
{
    McpError { code: INTERNAL_ERROR, message }
}

/// A copy of the text of an option, or `default`.
fn text_or(o: &Option<String>, default: &str) -> (s: String)
    ensures
        s@ == match o {
            Some(t) => t@,
            None => default@,
        },
{
    match o {
        Some(t) => t.clone(),
        None => default.to_owned(),
    }
}

} // verus!
