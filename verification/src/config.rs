//! Application settings and their defaults.
use vstd::prelude::*;
use vstd::string::StringExecFns;

verus! {

/// All settings of the application, grouped by concern.
#[derive(Clone, Debug)]
pub struct AppConfig {
    pub general: GeneralConfig,
    pub ngrok: NgrokConfig,
    pub mcp: McpConfig,
    pub app: AppSettings,
}

/// Workspace and start-up behaviour.
#[derive(Clone, Debug)]
pub struct GeneralConfig {
    pub workspace_folder: String,
    pub server_port: u16,
    pub auto_start_server: bool,
    pub auto_start_ngrok: bool,
}

/// How the ngrok tunnel is launched.
#[derive(Clone, Debug)]
pub struct NgrokConfig {
    pub executable_path: String,
    pub auth_token: String,
    pub region: String,
    pub tunnel_name: String,
}

/// The MCP server's port and identity.
#[derive(Clone, Debug)]
pub struct McpConfig {
    pub server_port: u16,
    pub server_name: String,
    pub server_description: String,
}

/// Desktop-application preferences.
#[derive(Clone, Debug)]
pub struct AppSettings {
    pub start_on_boot: bool,
    pub theme: String,
    pub log_level: String,
}

/// The settings used when no configuration file exists yet.
pub open spec fn is_default_config(c: AppConfig) -> bool {
    &&& c.general.workspace_folder@ == Seq::<char>::empty()
    &&& c.general.server_port == 3000
    &&& c.general.auto_start_server
    &&& c.general.auto_start_ngrok
    &&& c.ngrok.executable_path@ == "ngrok"@
    &&& c.ngrok.auth_token@ == Seq::<char>::empty()
    &&& c.ngrok.region@ == Seq::<char>::empty()
    &&& c.ngrok.tunnel_name@ == Seq::<char>::empty()
    &&& c.mcp.server_port == 3001
    &&& c.mcp.server_name@ == "Local Workspace Bridge"@
    &&& c.mcp.server_description@ == "MCP server for local workspace"@
    &&& !c.app.start_on_boot
    &&& c.app.theme@ == "dark"@
    &&& c.app.log_level@ == "info"@
}

impl Default for AppConfig {
    fn default() -> (c: Self)
        ensures
            is_default_config(c),
    {
        AppConfig {
            general: GeneralConfig {
                workspace_folder: String::new(),
                server_port: 3000,
                auto_start_server: true,
                auto_start_ngrok: true,
            },
            ngrok: NgrokConfig {
                executable_path: String::from_str("ngrok"),
                auth_token: String::new(),
                region: String::new(),
                tunnel_name: String::new(),
            },
            mcp: McpConfig {
                server_port: 3001,
                server_name: String::from_str("Local Workspace Bridge"),
                server_description: String::from_str("MCP server for local workspace"),
            },
            app: AppSettings {
                start_on_boot: false,
                theme: String::from_str("dark"),
                log_level: String::from_str("info"),
            },
        }
    }
}

} // verus!
