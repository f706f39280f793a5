use corgiterm::mcp::{
    backend_call, check_tool_call, created_text, default_tools, method_not_found, method_of, placeholder_text,
    search_results_text, switched_text, tool_failed, BackendCall, McpError, McpMethod, ToolArgs, ToolCall,
    INTERNAL_ERROR, INVALID_PARAMS, METHOD_NOT_FOUND,
};

fn no_args() -> ToolArgs {
    ToolArgs {
        command: None,
        cwd: None,
        timeout_ms: None,
        lines: None,
        session_id: None,
        name: None,
        project_id: None,
        query: None,
        search_type: None,
    }
}

/// What a `tools/call` request answers: the tool's text, or an error.
fn call(name: &str, args: Option<ToolArgs>) -> Result<String, McpError> {
    let tools = default_tools();
    let (tool, args) = check_tool_call(&tools, Some(ToolCall { name: Some(name.to_string()), arguments: args }))?;
    match backend_call(&tool, args) {
        Ok(c) => Ok(placeholder_text(&c)),
        Err(e) => Err(tool_failed(e)),
    }
}

#[test]
fn test_default_tools() {
    let tools = default_tools();
    assert!(tools.iter().any(|t| t.name == "execute_command"));
    assert!(tools.iter().any(|t| t.name == "get_terminal_output"));
    assert!(tools.iter().any(|t| t.name == "list_sessions"));
    assert!(tools.iter().any(|t| t.name == "create_session"));
    assert!(tools.iter().any(|t| t.name == "switch_session"));
    assert!(tools.iter().any(|t| t.name == "search_history"));
}

#[test]
fn test_mcp_server_creation() {
    assert!(!default_tools().is_empty());
}

#[test]
fn test_list_tools() {
    assert_eq!(method_of("tools/list"), McpMethod::ListTools);
    assert_eq!(method_of("tools/call"), McpMethod::CallTool);
    assert_eq!(method_of("resources/list"), McpMethod::ListResources);
}

#[test]
fn test_execute_command_tool() {
    let mut args = no_args();
    args.command = Some("ls -la".to_string());
    let text = call("execute_command", Some(args)).unwrap();
    assert_eq!(
        text,
        "Command execution requested:\nCommand: ls -la\nCWD: <current>\nTimeout: 30000ms\n\nNote: No backend configured. Use McpServer::with_backend() to connect terminal."
    );
}

#[test]
fn test_missing_required_param() {
    let err = call("execute_command", Some(no_args())).unwrap_err();
    assert_eq!(err.code, -32603);
    assert_eq!(err.message, "Missing required parameter: command");
    assert_eq!(call("switch_session", None).unwrap_err().message, "Missing arguments for switch_session");
}

#[test]
fn test_unknown_tool() {
    let err = call("nonexistent_tool", Some(no_args())).unwrap_err();
    assert_eq!(err.code, -32602);
    assert_eq!(err.message, "Unknown tool: nonexistent_tool");
    let missing = check_tool_call(&default_tools(), None).unwrap_err();
    assert_eq!((missing.code, missing.message.as_str()), (INVALID_PARAMS, "Missing parameters"));
}

#[test]
fn test_get_terminal_output_tool() {
    let mut args = no_args();
    args.lines = Some(50);
    let text = call("get_terminal_output", Some(args)).unwrap();
    assert_eq!(text, "Terminal output retrieval:\nLines: 50\nSession: <current>\n\nNote: No backend configured.");
    let default = call("get_terminal_output", None).unwrap();
    assert!(default.contains("Lines: 100"));
}

#[test]
fn test_list_sessions_tool() {
    let text = call("list_sessions", Some(no_args())).unwrap();
    assert_eq!(text, "Sessions:\n1. Default session (current)\n\nNote: No backend configured.");
}

#[test]
fn test_search_history_tool() {
    let mut args = no_args();
    args.query = Some("git status".to_string());
    args.search_type = Some("commands".to_string());
    let text = call("search_history", Some(args)).unwrap();
    assert_eq!(text, "History search:\nQuery: git status\nType: commands\n\nNote: No backend configured.");
    let mut plain = no_args();
    plain.query = Some("ls".to_string());
    match backend_call("search_history", Some(plain)).unwrap() {
        BackendCall::SearchHistory { query, search_type } => assert_eq!((query.as_str(), search_type.as_str()), ("ls", "all")),
        other => panic!("unexpected call {:?}", other),
    }
}

#[test]
fn test_unknown_method() {
    assert_eq!(method_of("unknown/method"), McpMethod::Unknown);
    let err = method_not_found();
    assert_eq!(err.code, -32601);
    assert_eq!(err.code, METHOD_NOT_FOUND);
    assert_eq!(err.message, "Method not found");
}

#[test]
fn session_texts() {
    let created = call("create_session", None).unwrap();
    assert_eq!(
        created,
        "Session creation requested:\nName: <auto>\nCWD: <current>\nProject: <none>\n\nNote: No backend configured."
    );
    let mut args = no_args();
    args.session_id = Some("abc".to_string());
    assert_eq!(call("switch_session", Some(args)).unwrap(), "Session switch requested:\nTarget: abc\n\nNote: No backend configured.");
    assert_eq!(switched_text("abc"), "Switched to session: abc");
    assert_eq!(created_text("{}"), "Created session:\n{}");
    assert_eq!(search_results_text(2, "[]"), "Search results (2 matches):\n[]");
    assert_eq!(backend_call("teleport", None).unwrap_err(), "Tool not implemented: teleport");
    assert_eq!(tool_failed("x".to_string()).code, INTERNAL_ERROR);
}
