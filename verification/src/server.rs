//! The server's shared state: whether it runs, its workspace, the public
//! tunnel address, and a bounded log of recent events.
use vstd::prelude::*;
use vstd::string::StringExecFns;
use crate::config::AppConfig;
use crate::pattern::{Pattern, compile_pattern, regex_capture, regex_compile_error};
use crate::text::{decimal, decimal_text, strings_view};

verus! {

/// How many log entries are kept; older ones are dropped first.
pub const MAX_LOG_ENTRIES: usize = 200;

/// One event in the server log.
#[derive(Debug)]
pub struct LogEntry {
    /// Milliseconds since the Unix epoch.
    pub time: u128,
    pub level: String,
    pub message: String,
}

/// The mathematical value of a [`LogEntry`].
pub struct LogView {
    pub time: u128,
    pub level: Seq<char>,
    pub message: Seq<char>,
}

impl View for LogEntry {
    type V = LogView;

    open spec fn view(&self) -> LogView {
        LogView { time: self.time, level: self.level@, message: self.message@ }
    }
}

impl LogEntry {
    /// A copy of this entry.
    pub fn duplicate(&self) -> (r: LogEntry)
        ensures
            r@ == self@,
    {
        LogEntry { time: self.time, level: self.level.clone(), message: self.message.clone() }
    }
}

/// The views of a sequence of log entries.
pub open spec fn logs_view(v: Seq<LogEntry>) -> Seq<LogView> {
    v.map_values(|e: LogEntry| e@)
}

/// The log after recording `e`: `e` is appended, and the oldest entry is
/// dropped when more than [`MAX_LOG_ENTRIES`] would be kept.
pub open spec fn log_push(logs: Seq<LogView>, e: LogView) -> Seq<LogView> {
    let grown = logs.push(e);
    if grown.len() > MAX_LOG_ENTRIES {
        grown.drop_first()
    } else {
        grown
    }
}

/// The view of an optional string.
pub open spec fn opt_view(o: Option<String>) -> Option<Seq<char>> {
    match o {
        Some(s) => Some(s@),
        None => None,
    }
}

/// The server's shared state.
pub struct ServerState {
    running: bool,
    ngrok_url: Option<String>,
    workspace: String,
    logs: Vec<LogEntry>,
}

/// The mathematical value of a [`ServerState`].
pub struct ServerView {
    pub running: bool,
    pub ngrok_url: Option<Seq<char>>,
    pub workspace: Seq<char>,
    pub logs: Seq<LogView>,
}

impl View for ServerState {
    type V = ServerView;

    closed spec fn view(&self) -> ServerView {
        ServerView {
            running: self.running,
            ngrok_url: opt_view(self.ngrok_url),
            workspace: self.workspace@,
            logs: logs_view(self.logs@),
        }
    }
}

/// What the caller launches when the server starts.
pub struct StartPlan {
    /// The port the MCP server listens on.
    pub mcp_port: u16,
    /// The tunnel to open, if one is wanted.
    pub ngrok: Option<NgrokLaunch>,
}

/// How to launch the ngrok tunnel.
pub struct NgrokLaunch {
    pub executable: String,
    pub port: u16,
    pub auth_token: String,
}

/// The text of the expression that finds the public address in ngrok's
/// log output.
pub open spec fn ngrok_url_pattern_text() -> Seq<char> {
    "url=(https://[a-zA-Z0-9\\-\\.]+\\.ngrok[-a-zA-Z0-9\\.]*)"@
}

/// The address the MCP server binds to for `port`.
pub open spec fn bind_address_text(port: u16) -> Seq<char> {
    "127.0.0.1:"@ + decimal_text(port as nat)
}

impl ServerState {
    /// The state is well formed: the log holds at most [`MAX_LOG_ENTRIES`].
    pub open spec fn wf(&self) -> bool {
        self@.logs.len() <= MAX_LOG_ENTRIES
    }

    /// A stopped server with an empty workspace, no tunnel and no log.
    pub fn new() -> (s: ServerState)
        ensures
            s.wf(),
            !s@.running,
            s@.ngrok_url is None,
            s@.workspace == Seq::<char>::empty(),
            s@.logs == Seq::<LogView>::empty(),
    {
        let s = ServerState {
            running: false,
            ngrok_url: None,
            workspace: String::new(),
            logs: Vec::new(),
        };
        assert(logs_view(s.logs@) =~= Seq::<LogView>::empty());
        s
    }

    /// Whether the server runs.
    pub fn is_running(&self) -> (r: bool)
        ensures
            r == self@.running,
    {
        self.running
    }

    /// The workspace folder the server serves.
    pub fn workspace(&self) -> (r: &str)
        ensures
            r@ == self@.workspace,
    {
        self.workspace.as_str()
    }

    /// The public address of the tunnel, once ngrok has reported it.
    pub fn ngrok_url(&self) -> (r: Option<String>)
        ensures
            opt_view(r) == self@.ngrok_url,
    {
        match &self.ngrok_url {
            Some(u) => Some(u.clone()),
            None => None,
        }
    }

    /// Hands out the log and empties it, so that no entry is handed out twice.
    pub fn take_logs(&mut self) -> (r: Vec<LogEntry>)
        requires
            old(self).wf(),
        ensures
            final(self).wf(),
            logs_view(r@) == old(self)@.logs,
            final(self)@.logs == Seq::<LogView>::empty(),
            final(self)@.running == old(self)@.running,
            final(self)@.ngrok_url == old(self)@.ngrok_url,
            final(self)@.workspace == old(self)@.workspace,
    {
        let mut out: Vec<LogEntry> = Vec::new();
        std::mem::swap(&mut out, &mut self.logs);
        assert(logs_view(self.logs@) =~= Seq::<LogView>::empty());
        out
    }

    /// Starts the server with `config`, unless it already runs. When it
    /// starts, the workspace is taken from the configuration, and the plan
    /// says which port to serve and whether to open a tunnel: only when
    /// ngrok is to start automatically and an auth token is set.
    pub fn begin_start(&mut self, config: &AppConfig) -> (r: Option<StartPlan>)
        requires
            old(self).wf(),
        ensures
            final(self).wf(),
            old(self)@.running ==> r is None && final(self)@ == old(self)@,
            !old(self)@.running ==> {
                &&& r is Some
                &&& final(self)@ == (ServerView {
                    running: true,
                    workspace: config.general.workspace_folder@,
                    ..old(self)@
                })
                &&& r->Some_0.mcp_port == config.mcp.server_port
                &&& (r->Some_0.ngrok is Some <==> (config.general.auto_start_ngrok
                    && config.ngrok.auth_token@.len() > 0))
                &&& r->Some_0.ngrok matches Some(l) ==> {
                    &&& l.executable@ == config.ngrok.executable_path@
                    &&& l.port == config.mcp.server_port
                    &&& l.auth_token@ == config.ngrok.auth_token@
                }
            },
    {
        if self.running {
            return None;
        }
        self.workspace = config.general.workspace_folder.clone();
        self.running = true;
        let port = config.mcp.server_port;
        let ngrok = if config.general.auto_start_ngrok && !config.ngrok.auth_token.as_str().is_empty() {
            Some(NgrokLaunch {
                executable: config.ngrok.executable_path.clone(),
                port,
                auth_token: config.ngrok.auth_token.clone(),
            })
        } else {
            None
        };
        Some(StartPlan { mcp_port: port, ngrok })
    }

    /// Stops the server: it no longer runs and has no tunnel address.
    pub fn stop(&mut self)
        requires
            old(self).wf(),
        ensures
            final(self).wf(),
            final(self)@ == (ServerView { running: false, ngrok_url: None, ..old(self)@ }),
    {
        self.running = false;
        self.ngrok_url = None;
    }

    /// Reads one line of ngrok's log output: if the address expression finds
    /// an address in it (its first capture group), that address is recorded
    /// and the answer is `true`, meaning that reading can stop.
    pub fn observe_ngrok_line(&mut self, pattern: &Pattern, line: &str) -> (found: bool)
        requires
            old(self).wf(),
        ensures
            final(self).wf(),
            match regex_capture(pattern@, line@, 1) {
                Some(url) => found && final(self)@ == (ServerView {
                    ngrok_url: Some(url),
                    ..old(self)@
                }),
                None => !found && final(self)@ == old(self)@,
            },
    {
        match pattern.capture(line, 1) {
            Some(url) => {
                self.ngrok_url = Some(url);
                true
            },
            None => false,
        }
    }
}

/// Records an event at `time` (milliseconds since the Unix epoch), dropping
/// the oldest entry when the log would grow beyond [`MAX_LOG_ENTRIES`].
pub fn add_log(state: &mut ServerState, time: u128, level: &str, message: &str)
    requires
        old(state).wf(),
    ensures
        final(state).wf(),
        final(state)@ == (ServerView {
            logs: log_push(old(state)@.logs, (LogView { time, level: level@, message: message@ })),
            ..old(state)@
        }),
{
    let entry = LogEntry {
        time,
        level: String::from_str(level),
        message: String::from_str(message),
    };
    let ghost before = logs_view(state.logs@);
    state.logs.push(entry);
    assert(logs_view(state.logs@) =~= before.push(
        LogView { time, level: level@, message: message@ },
    ));
    if state.logs.len() > MAX_LOG_ENTRIES {
        let ghost grown = logs_view(state.logs@);
        state.logs.remove(0);
        assert(logs_view(state.logs@) =~= grown.drop_first());
    }
}

/// Compiles the expression that finds the public address in ngrok's log
/// output.
pub fn ngrok_url_pattern() -> (r: Result<Pattern, String>)
    ensures
        match r {
            Ok(p) => p@ == ngrok_url_pattern_text(),
            Err(e) => regex_compile_error(ngrok_url_pattern_text()) == Some(e@),
        },
{
    compile_pattern("url=(https://[a-zA-Z0-9\\-\\.]+\\.ngrok[-a-zA-Z0-9\\.]*)")
}

/// The address the MCP server binds to: the loopback interface at `port`.
pub fn mcp_bind_address(port: u16) -> (r: String)
    ensures
        r@ == bind_address_text(port),
{
    let mut r = String::from_str("127.0.0.1:");
    let digits = decimal(port as u64);
    r.append(digits.as_str());
    r
}

impl NgrokLaunch {
    /// The arguments that store the auth token in ngrok's configuration,
    /// when a token is set.
    pub fn authtoken_args(&self) -> (r: Option<Vec<String>>)
        ensures
            r is Some <==> self.auth_token@.len() > 0,
            r matches Some(args) ==> strings_view(args@) == seq![
                "config"@,
                "add-authtoken"@,
                self.auth_token@,
            ],
    {
        if self.auth_token.as_str().is_empty() {
            return None;
        }
        let mut args: Vec<String> = Vec::new();
        args.push(String::from_str("config"));
        args.push(String::from_str("add-authtoken"));
        args.push(self.auth_token.clone());
        assert(strings_view(args@) =~= seq!["config"@, "add-authtoken"@, self.auth_token@]);
        Some(args)
    }

    /// The arguments that open an HTTP tunnel to the port, logging to
    /// standard output in logfmt.
    pub fn tunnel_args(&self) -> (r: Vec<String>)
        ensures
            strings_view(r@) == seq![
                "http"@,
                decimal_text(self.port as nat),
                "--log=stdout"@,
                "--log-format=logfmt"@,
            ],
    {
        let mut args: Vec<String> = Vec::new();
        args.push(String::from_str("http"));
        args.push(decimal(self.port as u64));
        args.push(String::from_str("--log=stdout"));
        args.push(String::from_str("--log-format=logfmt"));
        assert(strings_view(args@) =~= seq![
            "http"@,
            decimal_text(self.port as nat),
            "--log=stdout"@,
            "--log-format=logfmt"@,
        ]);
        args
    }
}

} // verus!
