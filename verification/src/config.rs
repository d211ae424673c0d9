//! The configuration, as an explicit value loaded once and passed down.

use std::path::PathBuf;
use vstd::prelude::*;

verus! {

#[derive(Debug, PartialEq)]
pub struct MacosConfig {
    pub sound: Option<String>,
    pub app_bundle_id: Option<String>,
    pub icon: Option<PathBuf>,
}

#[derive(Debug, Clone, PartialEq)]
pub struct SourceConfig {
    pub icon: Option<PathBuf>,
    pub app_bundle_id: Option<String>,
    pub display_name: Option<String>,
}

#[derive(Debug, Clone, PartialEq)]
pub struct RemoteConfig {
    pub host: Option<String>,
    pub port: Option<u16>,
    pub url: Option<String>,
    pub token: Option<String>,
    pub timeout_ms: Option<u64>,
    pub retries: Option<u32>,
    pub fallback_to_local: Option<bool>,
    pub forward_enabled: Option<bool>,
    pub previous_provider: Option<String>,
}

#[derive(Debug, Clone, PartialEq)]
pub struct ListenerConfig {
    pub bind: Option<String>,
    pub port: Option<u16>,
    pub token: Option<String>,
    pub require_token: Option<bool>,
    pub prefix_hostname: Option<bool>,
    pub allow_hosts: Option<Vec<String>>,
    pub on_click: Option<String>,
}

/// The whole configuration. `sources` lists each source once, by name:
/// see [`Config::wf`].
#[derive(Debug, Clone, PartialEq)]
pub struct Config {
    pub default_provider: Option<String>,
    pub macos: Option<MacosConfig>,
    pub remote: Option<RemoteConfig>,
    pub listener: Option<ListenerConfig>,
    pub sources: Option<Vec<(String, SourceConfig)>>,
}

/// Whether each source is listed once: no two entries have the same
/// name.
pub open spec fn distinct_sources(sources: Seq<(String, SourceConfig)>) -> bool {
    forall|i: int, j: int|
        0 <= i < j < sources.len() ==> (#[trigger] sources[i]).0@ != (#[trigger] sources[j]).0@
}

impl Config {
    /// Whether the configuration is well formed: each source is listed
    /// once.
    pub open spec fn wf(self) -> bool {
        self.sources is Some ==> distinct_sources(self.sources->0@)
    }

    /// Whether each source is listed once.
    pub fn has_distinct_sources(&self) -> (r: bool)
        ensures
            r == self.wf(),
    {
        let sources = match &self.sources {
            Some(s) => s,
            None => {
                return true;
            },
        };
        let mut j: usize = 0;
        while j < sources.len()
            invariant
                j <= sources@.len(),
                self.sources == Some(*sources),
                forall|a: int, b: int|
                    0 <= a < b < j ==> (#[trigger] sources@[a]).0@ != (#[trigger] sources@[b]).0@,
            decreases sources.len() - j,
        {
            let mut i: usize = 0;
            while i < j
                invariant
                    i <= j < sources@.len(),
                    self.sources == Some(*sources),
                    forall|a: int| 0 <= a < i ==> (#[trigger] sources@[a]).0@ != sources@[j as int].0@,
                decreases j - i,
            {
                if *sources[i].0.as_str() == *sources[j].0.as_str() {
                    assert(sources@[i as int].0@ == sources@[j as int].0@);
                    return false;
                }
                i += 1;
            }
            j += 1;
        }
        true
    }
}

impl Clone for MacosConfig {
    fn clone(&self) -> (r: Self)
        ensures
            r == *self,
    {
        MacosConfig {
            sound: crate::notification::clone_opt(&self.sound),
            app_bundle_id: crate::notification::clone_opt(&self.app_bundle_id),
            icon: self.icon.clone(),
        }
    }
}

impl Default for MacosConfig {
    fn default() -> (r: Self)
        ensures
            r == (MacosConfig { sound: None, app_bundle_id: None, icon: None }),
    {
        MacosConfig { sound: None, app_bundle_id: None, icon: None }
    }
}

impl Config {
    /// The text of a new configuration file: every section, with each
    /// setting as a comment.
    pub open spec fn template_text() -> Seq<char> {
        "# wakedev config\n# default_provider = \"macos\"\n\n[macos]\n# sound = \"default\" # use \"none\" to disable\n# app_bundle_id = \"com.apple.Terminal\"\n# icon = \"/path/to/icon.png\"\n\n[remote]\n# host = \"127.0.0.1\"\n# port = 4280\n# token = \"...\"\n# timeout_ms = 2000\n# retries = 2\n# fallback_to_local = true\n# forward_enabled = true\n# previous_provider = \"macos\"\n\n[listener]\n# bind = \"127.0.0.1\"\n# port = 4280\n# token = \"...\"\n# require_token = true\n# prefix_hostname = true\n# allow_hosts = [\"127.0.0.1\"]\n# on_click = \"wakedev focus\"\n\n[sources.codex]\n# icon = \"/path/to/openai.icns\"\n"@
    }

    /// The text of a new configuration file.
    pub fn template() -> (r: &'static str)
        ensures
            r@ == Config::template_text(),
    {
        "# wakedev config\n# default_provider = \"macos\"\n\n[macos]\n# sound = \"default\" # use \"none\" to disable\n# app_bundle_id = \"com.apple.Terminal\"\n# icon = \"/path/to/icon.png\"\n\n[remote]\n# host = \"127.0.0.1\"\n# port = 4280\n# token = \"...\"\n# timeout_ms = 2000\n# retries = 2\n# fallback_to_local = true\n# forward_enabled = true\n# previous_provider = \"macos\"\n\n[listener]\n# bind = \"127.0.0.1\"\n# port = 4280\n# token = \"...\"\n# require_token = true\n# prefix_hostname = true\n# allow_hosts = [\"127.0.0.1\"]\n# on_click = \"wakedev focus\"\n\n[sources.codex]\n# icon = \"/path/to/openai.icns\"\n"
    }
}

/// Decides whether a new configuration file is written at a path: not
/// over a file that is there, unless that is forced. What is written is
/// the template.
pub fn handle_config_init(exists: bool, force: bool, path_display: &str) -> (r: Result<
    &'static str,
    crate::error::NotifallError,
>)
    ensures
        exists && !force ==> (r matches Err(crate::error::NotifallError::ConfigExists(p)) && p@
            == path_display@),
        !(exists && !force) ==> r is Ok && r->Ok_0@ == Config::template_text(),
{
    if exists && !force {
        return Err(crate::error::NotifallError::ConfigExists(path_display.to_owned()));
    }
    Ok(Config::template())
}

impl Default for SourceConfig {
    fn default() -> (r: Self)
        ensures
            r == (SourceConfig { icon: None, app_bundle_id: None, display_name: None }),
    {
        SourceConfig { icon: None, app_bundle_id: None, display_name: None }
    }
}

impl Default for RemoteConfig {
    fn default() -> (r: Self)
        ensures
            r == (RemoteConfig {
                host: None,
                port: None,
                url: None,
                token: None,
                timeout_ms: None,
                retries: None,
                fallback_to_local: None,
                forward_enabled: None,
                previous_provider: None,
            }),
    {
        RemoteConfig {
            host: None,
            port: None,
            url: None,
            token: None,
            timeout_ms: None,
            retries: None,
            fallback_to_local: None,
            forward_enabled: None,
            previous_provider: None,
        }
    }
}

impl Default for ListenerConfig {
    fn default() -> (r: Self)
        ensures
            r == (ListenerConfig {
                bind: None,
                port: None,
                token: None,
                require_token: None,
                prefix_hostname: None,
                allow_hosts: None,
                on_click: None,
            }),
    {
        ListenerConfig {
            bind: None,
            port: None,
            token: None,
            require_token: None,
            prefix_hostname: None,
            allow_hosts: None,
            on_click: None,
        }
    }
}

impl Default for Config {
    fn default() -> (r: Self)
        ensures
            r == (Config {
                default_provider: None,
                macos: None,
                remote: None,
                listener: None,
                sources: None,
            }),
    {
        Config { default_provider: None, macos: None, remote: None, listener: None, sources: None }
    }
}

} // verus!
