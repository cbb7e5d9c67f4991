use workspace_bridge::config::AppConfig;
use workspace_bridge::server::{add_log, mcp_bind_address, ngrok_url_pattern, ServerState, MAX_LOG_ENTRIES};

#[test]
fn default_config_values() {
    let c = AppConfig::default();
    assert_eq!(c.general.workspace_folder, "");
    assert_eq!(c.general.server_port, 3000);
    assert!(c.general.auto_start_server);
    assert!(c.general.auto_start_ngrok);
    assert_eq!(c.ngrok.executable_path, "ngrok");
    assert_eq!(c.ngrok.auth_token, "");
    assert_eq!(c.ngrok.region, "");
    assert_eq!(c.ngrok.tunnel_name, "");
    assert_eq!(c.mcp.server_port, 3001);
    assert_eq!(c.mcp.server_name, "Local Workspace Bridge");
    assert_eq!(c.mcp.server_description, "MCP server for local workspace");
    assert!(!c.app.start_on_boot);
    assert_eq!(c.app.theme, "dark");
    assert_eq!(c.app.log_level, "info");
}

#[test]
fn new_state_is_stopped_and_empty() {
    let mut s = ServerState::new();
    assert!(!s.is_running());
    assert_eq!(s.workspace(), "");
    assert_eq!(s.ngrok_url(), None);
    assert!(s.take_logs().is_empty());
}

#[test]
fn log_keeps_the_most_recent_entries() {
    let mut s = ServerState::new();
    for i in 0..(MAX_LOG_ENTRIES + 5) {
        add_log(&mut s, i as u128, "INFO", &format!("{}", i));
    }
    let logs = s.take_logs();
    assert_eq!(logs.len(), MAX_LOG_ENTRIES);
    assert_eq!(logs[0].message, "5");
    assert_eq!(logs[0].time, 5);
    assert_eq!(logs[MAX_LOG_ENTRIES - 1].message, format!("{}", MAX_LOG_ENTRIES + 4));
    assert!(s.take_logs().is_empty());
}

#[test]
fn log_entry_fields_are_recorded() {
    let mut s = ServerState::new();
    add_log(&mut s, 42, "REQ", "hello");
    let logs = s.take_logs();
    assert_eq!(logs.len(), 1);
    assert_eq!(logs[0].time, 42);
    assert_eq!(logs[0].level, "REQ");
    assert_eq!(logs[0].message, "hello");
}

#[test]
fn start_without_token_opens_no_tunnel() {
    let mut s = ServerState::new();
    let mut c = AppConfig::default();
    c.general.workspace_folder = "/ws".to_string();
    let plan = s.begin_start(&c).expect("starts");
    assert_eq!(plan.mcp_port, 3001);
    assert!(plan.ngrok.is_none());
    assert!(s.is_running());
    assert_eq!(s.workspace(), "/ws");
}

#[test]
fn start_with_token_opens_a_tunnel() {
    let mut s = ServerState::new();
    let mut c = AppConfig::default();
    c.ngrok.auth_token = "tok".to_string();
    c.ngrok.executable_path = "/usr/bin/ngrok".to_string();
    c.mcp.server_port = 4000;
    let plan = s.begin_start(&c).expect("starts");
    let l = plan.ngrok.expect("tunnel");
    assert_eq!(l.executable, "/usr/bin/ngrok");
    assert_eq!(l.port, 4000);
    assert_eq!(l.auth_token, "tok");
    assert_eq!(l.authtoken_args(), Some(vec!["config".to_string(), "add-authtoken".to_string(), "tok".to_string()]));
    assert_eq!(l.tunnel_args(), vec!["http", "4000", "--log=stdout", "--log-format=logfmt"]);
}

#[test]
fn token_without_auto_start_opens_no_tunnel() {
    let mut s = ServerState::new();
    let mut c = AppConfig::default();
    c.ngrok.auth_token = "tok".to_string();
    c.general.auto_start_ngrok = false;
    assert!(s.begin_start(&c).expect("starts").ngrok.is_none());
}

#[test]
fn second_start_changes_nothing() {
    let mut s = ServerState::new();
    let mut c = AppConfig::default();
    c.general.workspace_folder = "/first".to_string();
    assert!(s.begin_start(&c).is_some());
    c.general.workspace_folder = "/second".to_string();
    assert!(s.begin_start(&c).is_none());
    assert_eq!(s.workspace(), "/first");
}

#[test]
fn stop_clears_running_and_address() {
    let mut s = ServerState::new();
    assert!(s.begin_start(&AppConfig::default()).is_some());
    let p = ngrok_url_pattern().expect("valid");
    assert!(s.observe_ngrok_line(&p, "t=1 lvl=info msg=\"started tunnel\" url=https://ab-12.ngrok-free.app"));
    assert_eq!(s.ngrok_url(), Some("https://ab-12.ngrok-free.app".to_string()));
    s.stop();
    assert!(!s.is_running());
    assert_eq!(s.ngrok_url(), None);
    assert!(s.begin_start(&AppConfig::default()).is_some());
}

#[test]
fn lines_without_an_address_are_skipped() {
    let mut s = ServerState::new();
    let p = ngrok_url_pattern().expect("valid");
    assert!(!s.observe_ngrok_line(&p, "t=1 lvl=info msg=\"starting web service\" addr=127.0.0.1:4040"));
    assert!(!s.observe_ngrok_line(&p, "url=https://example.com"));
    assert_eq!(s.ngrok_url(), None);
}

#[test]
fn bind_address_is_loopback() {
    assert_eq!(mcp_bind_address(3001), "127.0.0.1:3001");
    assert_eq!(mcp_bind_address(0), "127.0.0.1:0");
}

#[test]
fn empty_token_gives_no_authtoken_step() {
    let mut s = ServerState::new();
    let mut c = AppConfig::default();
    c.ngrok.auth_token = "x".to_string();
    let mut l = s.begin_start(&c).unwrap().ngrok.unwrap();
    l.auth_token = String::new();
    assert_eq!(l.authtoken_args(), None);
}
