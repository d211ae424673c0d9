//! The command line, as plain values.

use std::path::PathBuf;
use vstd::prelude::*;

verus! {

#[derive(Debug, Clone, PartialEq)]
pub struct Cli {
    pub command: Commands,
    /// Path to the configuration file.
    pub config: Option<PathBuf>,
}

#[derive(Debug, Clone, PartialEq)]
#[allow(inconsistent_fields)]
pub enum Commands {
    /// Send a notification.
    Send(SendArgs),
    /// Manage the configuration.
    Config { command: ConfigCmd },
    /// List the providers.
    Providers { command: ProvidersCmd },
    /// Manage the configured sources.
    Sources { command: SourcesCmd },
    /// Install an integration.
    Install(InstallArgs),
    /// Entry point for an integration's hook.
    Hook(HookArgs),
    /// Focus the terminal and pane a notification came from.
    Focus(FocusArgs),
    /// Listen for relayed notifications.
    Listen(ListenArgs),
    /// Remote provider utilities.
    Remote { command: RemoteCmd },
    /// Telegram provider utilities.
    Telegram { command: TelegramCmd },
    /// The detached click-wait helper.
    WaitMacos(WaitMacosArgs),
}

#[derive(Debug, Clone, PartialEq)]
pub struct SendArgs {
    pub title: Option<String>,
    pub message: String,
    pub icon: Option<PathBuf>,
    pub no_icon: bool,
    pub link: Option<String>,
    pub sound: Option<String>,
    pub silent: bool,
    pub telegram_token: Option<String>,
    pub telegram_chat_id: Option<String>,
    pub telegram_parse_mode: Option<String>,
    pub telegram_silent: bool,
    pub urgency: Option<UrgencyArg>,
    pub tag: Option<String>,
    pub source: Option<String>,
    pub on_click: Option<String>,
    pub wait_for_click: bool,
    pub background: bool,
    pub json: bool,
    pub provider: Option<String>,
    pub remote_host: Option<String>,
    pub remote_port: Option<u16>,
    pub remote_token: Option<String>,
    pub remote_timeout_ms: Option<u64>,
    pub remote_retries: Option<u32>,
    pub no_fallback: bool,
}

#[derive(Debug, Clone, PartialEq)]
pub enum ConfigCmd {
    Init(ConfigInitArgs),
    SetKey(ConfigSetArgs),
    Path,
    List,
}

#[derive(Debug, Clone, PartialEq)]
pub struct ConfigInitArgs {
    pub path: Option<PathBuf>,
    pub force: bool,
}

#[derive(Debug, Clone, PartialEq)]
pub struct ConfigSetArgs {
    pub key: String,
    pub value: String,
}

#[derive(Debug, Clone, Copy, PartialEq, Eq, Structural)]
pub enum ProvidersCmd {
    List,
}

#[derive(Debug, Clone, Copy, PartialEq, Eq, Structural)]
pub enum SourcesCmd {
    List,
}

#[derive(Debug, Clone, PartialEq)]
pub struct InstallArgs {
    pub target: InstallTarget,
    pub apply: bool,
}

#[derive(Debug, Clone, Copy, PartialEq, Eq, Structural)]
pub enum InstallTarget {
    Claude,
    Codex,
}

#[derive(Debug, Clone, PartialEq)]
pub struct HookArgs {
    pub target: InstallTarget,
    pub json: Option<String>,
}

#[derive(Debug, Clone, PartialEq)]
pub struct FocusArgs {
    pub tmux_session: Option<String>,
    pub tmux_window: Option<String>,
    pub tmux_pane: Option<String>,
    pub terminal: Option<String>,
    pub no_activate: bool,
}

#[derive(Debug, Clone, PartialEq)]
pub struct WaitMacosArgs {
    pub payload: PathBuf,
}

#[derive(Debug, Clone, PartialEq)]
pub struct ListenArgs {
    pub bind: Option<String>,
    pub port: Option<u16>,
    pub token: Option<String>,
    pub require_token: bool,
    pub prefix_hostname: bool,
    pub allow_host: Vec<String>,
    pub on_click: Option<String>,
    pub no_click: bool,
}

#[derive(Debug, Clone, PartialEq)]
pub enum RemoteCmd {
    Ping(RemotePingArgs),
    Forward(RemoteForwardArgs),
}

#[derive(Debug, Clone, PartialEq)]
pub enum TelegramCmd {
    ChatId(TelegramChatIdArgs),
}

#[derive(Debug, Clone, PartialEq)]
pub struct TelegramChatIdArgs {
    pub token: Option<String>,
    pub apply: bool,
}

#[derive(Debug, Clone, PartialEq)]
pub struct RemotePingArgs {
    pub remote_host: Option<String>,
    pub remote_port: Option<u16>,
    pub remote_token: Option<String>,
}

#[derive(Debug, Clone, PartialEq)]
pub struct RemoteForwardArgs {
    pub state: ForwardState,
    pub host: Option<String>,
    pub port: Option<u16>,
}

#[derive(Debug, Clone, Copy, PartialEq, Eq, Structural)]
pub enum ForwardState {
    On,
    Off,
    Toggle,
    Status,
}

#[derive(Debug, Clone, Copy, PartialEq, Eq, Structural)]
pub enum UrgencyArg {
    Low,
    Normal,
    High,
}

} // verus!
