use workspace_bridge::config::AppConfig;
use workspace_bridge::rpc::{
    finish_tool_call, handle_mcp_request, search_file, RpcReply, RpcRequest, RpcResult, RpcStep, ToolAction, ToolArgs,
    ToolCall, ToolFailure, ToolOutcome, INVALID_PARAMS, METHOD_NOT_FOUND, TOOL_ERROR,
};
use workspace_bridge::server::ServerState;

fn started(ws: &str) -> ServerState {
    let mut s = ServerState::new();
    let mut c = AppConfig::default();
    c.general.workspace_folder = ws.to_string();
    assert!(s.begin_start(&c).is_some());
    s
}

fn request(method: &str, params: Option<ToolCall>) -> RpcRequest {
    RpcRequest { has_id: true, method: method.to_string(), params_text: "null".to_string(), params }
}

fn call(name: Option<&str>, path: Option<&str>, content: Option<&str>, query: Option<&str>) -> Option<ToolCall> {
    Some(ToolCall {
        name: name.map(|n| n.to_string()),
        arguments: ToolArgs {
            path: path.map(|p| p.to_string()),
            content: content.map(|c| c.to_string()),
            query: query.map(|q| q.to_string()),
        },
    })
}

fn failure(step: RpcStep) -> (i32, String) {
    match step {
        RpcStep::Reply(RpcReply::Failure(f)) => (f.code, f.message),
        _ => panic!("not a failure"),
    }
}

fn action(step: RpcStep) -> ToolAction {
    match step {
        RpcStep::RunTool(a) => a,
        _ => panic!("not a tool run"),
    }
}

fn levels_and_messages(s: &mut ServerState) -> Vec<(String, String)> {
    s.take_logs().into_iter().map(|e| (e.level, e.message)).collect()
}

#[test]
fn notification_gets_no_body() {
    let mut s = started("/ws");
    let req = RpcRequest {
        has_id: false,
        method: "notifications/initialized".to_string(),
        params_text: "null".to_string(),
        params: None,
    };
    assert!(matches!(handle_mcp_request(&mut s, 1, &req), RpcStep::Reply(RpcReply::NoContent)));
    assert_eq!(
        levels_and_messages(&mut s),
        vec![("INFO".to_string(), "Notification received: notifications/initialized".to_string())]
    );
}

#[test]
fn initialize_describes_the_server() {
    let mut s = started("/ws");
    match handle_mcp_request(&mut s, 1, &request("initialize", None)) {
        RpcStep::Reply(RpcReply::Success(RpcResult::Initialize(info))) => {
            assert_eq!(info.protocol_version, "2024-11-05");
            assert_eq!(info.capabilities, vec!["tools"]);
            assert_eq!(info.name, "Local Workspace Bridge");
            assert_eq!(info.version, "0.1.0");
        },
        _ => panic!("unexpected answer"),
    }
    assert_eq!(
        levels_and_messages(&mut s),
        vec![
            ("REQ".to_string(), "Method: initialize | Params: null".to_string()),
            ("RES".to_string(), "Success".to_string()),
        ]
    );
}

#[test]
fn tools_list_names_five_tools() {
    let mut s = started("/ws");
    match handle_mcp_request(&mut s, 1, &request("tools/list", None)) {
        RpcStep::Reply(RpcReply::Success(RpcResult::ToolsList(tools))) => {
            let names: Vec<&str> = tools.iter().map(|t| t.name.as_str()).collect();
            assert_eq!(names, vec!["read_file", "write_file", "list_files", "search_files", "delete_file"]);
            assert_eq!(tools[1].params, vec!["path", "content"]);
            assert_eq!(tools[3].params, vec!["path", "query"]);
            assert_eq!(tools[3].description, "Search text in files");
        },
        _ => panic!("unexpected answer"),
    }
}

#[test]
fn unknown_method_is_not_found() {
    let mut s = started("/ws");
    assert_eq!(
        failure(handle_mcp_request(&mut s, 1, &request("resources/list", None))),
        (METHOD_NOT_FOUND, "Method not found".to_string())
    );
    let logs = levels_and_messages(&mut s);
    assert_eq!(logs[1], ("ERR".to_string(), "Error: Method not found".to_string()));
}

#[test]
fn tool_call_without_params_is_invalid() {
    let mut s = started("/ws");
    assert_eq!(
        failure(handle_mcp_request(&mut s, 1, &request("tools/call", None))),
        (INVALID_PARAMS, "Missing params".to_string())
    );
}

#[test]
fn unknown_or_unnamed_tool_is_refused() {
    let mut s = started("/ws");
    assert_eq!(
        failure(handle_mcp_request(&mut s, 1, &request("tools/call", call(Some("rm_rf"), Some("a"), None, None)))),
        (TOOL_ERROR, "Unknown tool".to_string())
    );
    assert_eq!(
        failure(handle_mcp_request(&mut s, 1, &request("tools/call", call(None, Some("a"), None, None)))),
        (TOOL_ERROR, "Unknown tool".to_string())
    );
}

#[test]
fn missing_arguments_are_refused() {
    let mut s = started("/ws");
    assert_eq!(
        failure(handle_mcp_request(&mut s, 1, &request("tools/call", call(Some("read_file"), None, None, None)))),
        (TOOL_ERROR, "Missing path".to_string())
    );
    assert_eq!(
        failure(handle_mcp_request(&mut s, 1, &request("tools/call", call(Some("write_file"), Some("a"), None, None)))),
        (TOOL_ERROR, "Missing content".to_string())
    );
    assert_eq!(
        failure(handle_mcp_request(&mut s, 1, &request("tools/call", call(Some("search_files"), Some("a"), None, None)))),
        (TOOL_ERROR, "Missing query".to_string())
    );
}

#[test]
fn read_file_asks_for_the_confined_path() {
    let mut s = started("/ws");
    match action(handle_mcp_request(&mut s, 7, &request("tools/call", call(Some("read_file"), Some("/docs/a.txt"), None, None)))) {
        ToolAction::ReadFile { path } => assert_eq!(path, "/ws/docs/a.txt"),
        _ => panic!("wrong action"),
    }
    let logs = s.take_logs();
    assert_eq!(logs.len(), 2);
    assert_eq!(logs[1].level, "PATH");
    assert_eq!(logs[1].message, "Raw: /docs/a.txt");
    assert_eq!(logs[1].time, 7);
}

#[test]
fn other_tools_ask_for_their_operations() {
    let mut s = started("/ws");
    match action(handle_mcp_request(&mut s, 1, &request("tools/call", call(Some("write_file"), Some("n.md"), Some("hi"), None)))) {
        ToolAction::WriteFile { path, content } => {
            assert_eq!(path, "/ws/n.md");
            assert_eq!(content, "hi");
        },
        _ => panic!("wrong action"),
    }
    assert!(matches!(
        action(handle_mcp_request(&mut s, 1, &request("tools/call", call(Some("list_files"), Some("."), None, None)))),
        ToolAction::ListFiles { path } if path == "/ws"
    ));
    assert!(matches!(
        action(handle_mcp_request(&mut s, 1, &request("tools/call", call(Some("delete_file"), Some("old"), None, None)))),
        ToolAction::DeleteFile { path } if path == "/ws/old"
    ));
}

#[test]
fn escaping_path_is_refused_as_tool_error() {
    let mut s = started("/ws");
    let (code, msg) = failure(handle_mcp_request(
        &mut s,
        1,
        &request("tools/call", call(Some("delete_file"), Some("../etc/passwd"), None, None)),
    ));
    assert_eq!(code, TOOL_ERROR);
    assert_eq!(msg, "Access denied: Path '/etc/passwd' is outside workspace prefix '/ws/'");
    let logs = levels_and_messages(&mut s);
    assert_eq!(logs.len(), 3);
    assert_eq!(logs[2].0, "ERR");
}

#[test]
fn invalid_query_is_refused_with_the_regex_error() {
    let mut s = started("/ws");
    let (code, msg) = failure(handle_mcp_request(
        &mut s,
        1,
        &request("tools/call", call(Some("search_files"), Some("."), None, Some("foo("))),
    ));
    assert_eq!(code, TOOL_ERROR);
    assert!(msg.starts_with("regex parse error"), "{}", msg);
    let logs = levels_and_messages(&mut s);
    assert_eq!(logs[1], ("PATH".to_string(), "Raw: . | Query: foo(".to_string()));
}

#[test]
fn search_reports_matching_lines() {
    let mut s = started("/ws");
    match action(handle_mcp_request(&mut s, 1, &request("tools/call", call(Some("search_files"), Some("src"), None, Some("fo+"))))) {
        ToolAction::SearchFiles { path, pattern } => {
            assert_eq!(path, "/ws/src");
            assert_eq!(
                search_file(&pattern, "/ws/src/a.txt", "foo\nbar\r\nxx fooo\n"),
                vec!["/ws/src/a.txt:1:foo", "/ws/src/a.txt:3:xx fooo"]
            );
            assert!(search_file(&pattern, "b", "nothing here").is_empty());
        },
        _ => panic!("wrong action"),
    }
}

#[test]
fn outcomes_become_answers() {
    let mut s = started("/ws");
    let text = |r: RpcReply| match r {
        RpcReply::Success(RpcResult::Text(t)) => t,
        _ => panic!("not text"),
    };
    assert_eq!(text(finish_tool_call(&mut s, 1, &ToolOutcome::Read("body".to_string()))), "body");
    assert_eq!(text(finish_tool_call(&mut s, 1, &ToolOutcome::Wrote)), "Success");
    assert_eq!(text(finish_tool_call(&mut s, 1, &ToolOutcome::Deleted)), "Deleted");
    assert_eq!(
        text(finish_tool_call(
            &mut s,
            1,
            &ToolOutcome::Listed(vec!["".to_string(), "a".to_string(), "b/c".to_string()])
        )),
        "a\nb/c"
    );
    assert_eq!(
        text(finish_tool_call(&mut s, 1, &ToolOutcome::Searched(vec!["x:1:y".to_string(), "x:2:z".to_string()]))),
        "x:1:y\nx:2:z"
    );
    let logs = levels_and_messages(&mut s);
    assert!(logs.iter().all(|l| l == &("RES".to_string(), "Success".to_string())));
}

#[test]
fn failed_operations_become_tool_errors() {
    let mut s = started("/ws");
    let cases = vec![
        (ToolFailure::Read("gone".to_string()), "Read failed: gone"),
        (ToolFailure::CreateDir("denied".to_string()), "Dir creation failed: denied"),
        (ToolFailure::Write("full".to_string()), "Write failed: full"),
        (ToolFailure::Delete("busy".to_string()), "Delete failed: busy"),
    ];
    for (f, expected) in cases {
        match finish_tool_call(&mut s, 3, &ToolOutcome::Failed(f)) {
            RpcReply::Failure(e) => {
                assert_eq!(e.code, TOOL_ERROR);
                assert_eq!(e.message, expected);
            },
            _ => panic!("not a failure"),
        }
        let logs = levels_and_messages(&mut s);
        assert_eq!(logs, vec![("ERR".to_string(), format!("Error: {}", expected))]);
    }
}
