//! The delivery orchestrator: which provider a send goes to, what is
//! sent, and what happens on a click.
//!
//! Nothing here shows a notification, starts a process or touches the
//! network. Each function decides; the caller acts on the decision.

use crate::cli::{RemotePingArgs, SendArgs, UrgencyArg};
use crate::config::{Config, MacosConfig, RemoteConfig, SourceConfig};
use crate::context::Context;
use crate::error::NotifallError;
use crate::notification::{clone_opt, Notification, NotificationView, Urgency};
use crate::payload::WaitPayload;
use crate::provider::{DeliveryOutcome, ProviderError, SendOptions};
use crate::relay::{
    notify_url, resolve_remote_target, target_of, text_of, to_ping_url, AttemptResult,
    RelayState, RelayStep, RelayStepView, RemoteTarget,
};
use crate::remote::{RemoteContext, RemoteEnvelope};
use crate::text::{append_range, chars_of, lowercase, to_uppercase, uppercase};
use std::path::PathBuf;
use vstd::prelude::*;

verus! {

/// The text of an optional string.
pub open spec fn opt_text(s: Option<String>) -> Option<Seq<char>> {
    match s {
        Some(v) => Some(v@),
        None => None,
    }
}

/// The provider that a send goes to: the one named on the command line;
/// else `remote` where forwarding is switched on; else the configured
/// default; else `macos` where a local provider exists; else none.
pub open spec fn provider_choice(
    cli_provider: Option<Seq<char>>,
    config: Option<Config>,
    local_available: bool,
) -> Option<Seq<char>> {
    if cli_provider is Some {
        Some(lowercase(cli_provider->0))
    } else if config is Some && config->0.remote is Some && config->0.remote->0.forward_enabled
        == Some(true) {
        Some("remote"@)
    } else if config is Some && config->0.default_provider is Some {
        Some(lowercase(config->0.default_provider->0@))
    } else if local_available {
        Some("macos"@)
    } else {
        None
    }
}

/// Resolves the provider of a send. Names are put in lower case.
pub fn resolve_provider(
    cli_provider: Option<&str>,
    config: Option<&Config>,
    local_available: bool,
) -> (r: Result<String, NotifallError>)
    ensures
        match provider_choice(
            crate::relay::text_of(cli_provider),
            match config {
                Some(c) => Some(*c),
                None => None,
            },
            local_available,
        ) {
            Some(name) => r is Ok && r->Ok_0@ == name,
            None => r is Err && r->Err_0 == NotifallError::NoProviderAvailable,
        },
{
    if let Some(provider) = cli_provider {
        return Ok(provider.to_lowercase());
    }
    if let Some(c) = config {
        if let Some(remote) = &c.remote {
            if let Some(enabled) = remote.forward_enabled {
                if enabled {
                    return Ok("remote".to_owned());
                }
            }
        }
        if let Some(default_provider) = &c.default_provider {
            return Ok(default_provider.as_str().to_lowercase());
        }
    }
    if local_available {
        return Ok("macos".to_owned());
    }
    Err(NotifallError::NoProviderAvailable)
}

/// The first entry of `sources` under `name`.
pub open spec fn found_source(sources: Seq<(String, SourceConfig)>, name: Seq<char>) -> Option<
    SourceConfig,
>
    decreases sources.len(),
{
    if sources.len() == 0 {
        None
    } else if sources[0].0@ == name {
        Some(sources[0].1)
    } else {
        found_source(sources.drop_first(), name)
    }
}

/// Where each source is listed once, the entry found under a name is the
/// one entry that has the name.
pub proof fn lemma_found_source_is_the_one(
    sources: Seq<(String, SourceConfig)>,
    name: Seq<char>,
    at: int,
)
    requires
        crate::config::distinct_sources(sources),
        0 <= at < sources.len(),
        sources[at].0@ == name,
    ensures
        found_source(sources, name) == Some(sources[at].1),
    decreases sources.len(),
{
    if sources[0].0@ == name {
        if at != 0 {
            assert(sources[0].0@ != sources[at].0@);
        }
    } else {
        let rest = sources.drop_first();
        assert forall|i: int, j: int| 0 <= i < j < rest.len() implies (#[trigger] rest[i]).0@ != (
        #[trigger] rest[j]).0@ by {
            assert(rest[i] == sources[i + 1] && rest[j] == sources[j + 1]);
        }
        assert(rest[at - 1] == sources[at]);
        lemma_found_source_is_the_one(rest, name, at - 1);
    }
}

/// The configuration of `source`, where there is one.
pub open spec fn source_config_of(config: Option<Config>, source: Option<Seq<char>>) -> Option<
    SourceConfig,
> {
    if source is Some && config is Some && config->0.sources is Some {
        found_source(config->0.sources->0@, source->0)
    } else {
        None
    }
}

/// Looks up the configuration of a source by its name.
pub fn resolve_source_config<'a>(config: Option<&'a Config>, source: Option<&str>) -> (r: Option<
    &'a SourceConfig,
>)
    ensures
        match source_config_of(
            match config {
                Some(c) => Some(*c),
                None => None,
            },
            crate::relay::text_of(source),
        ) {
            Some(found) => r is Some && *r->0 == found,
            None => r is None,
        },
{
    let name = match source {
        Some(s) => s,
        None => {
            return None;
        },
    };
    let sources = match config {
        Some(c) => match &c.sources {
            Some(s) => s,
            None => {
                return None;
            },
        },
        None => {
            return None;
        },
    };
    let mut i: usize = 0;
    assert(sources@.skip(0) =~= sources@);
    while i < sources.len()
        invariant
            i <= sources@.len(),
            source_config_of(
                match config {
                    Some(c) => Some(*c),
                    None => None,
                },
                crate::relay::text_of(source),
            ) == found_source(sources@.skip(i as int), name@),
        decreases sources.len() - i,
    {
        proof {
            assert(sources@.skip(i as int)[0] == sources@[i as int]);
            assert(sources@.skip(i as int).drop_first() =~= sources@.skip(i + 1));
        }
        if *sources[i].0.as_str() == *name {
            return Some(&sources[i].1);
        }
        i += 1;
    }
    assert(sources@.skip(i as int) =~= Seq::<(String, SourceConfig)>::empty());
    None
}

/// The title that a source gives where nothing else does: its name with
/// the first character in upper case.
pub open spec fn source_title(source: Seq<char>) -> Seq<char> {
    if source.len() == 0 {
        "Wakedev"@
    } else {
        uppercase(source[0]) + source.skip(1)
    }
}

/// Puts the upper-case form `upper` of the first character of `source` in
/// the place of that character; an empty name gives `Wakedev`.
pub fn title_with_initial(upper: String, source: &str) -> (r: String)
    ensures
        r@ == if source@.len() == 0 {
            "Wakedev"@
        } else {
            upper@ + source@.skip(1)
        },
{
    let cs = chars_of(source);
    if cs.len() == 0 {
        return "Wakedev".to_owned();
    }
    let mut out = upper;
    append_range(&mut out, cs.as_slice(), 1, cs.len());
    assert(cs@.subrange(1, cs@.len() as int) =~= source@.skip(1));
    out
}

/// Makes a title out of the name of a source.
pub fn title_from_source(source: &str) -> (r: String)
    ensures
        r@ == source_title(source@),
{
    let cs = chars_of(source);
    if cs.len() == 0 {
        return "Wakedev".to_owned();
    }
    title_with_initial(to_uppercase(cs[0]), source)
}

/// The title of a send: the one given; else the display name of the
/// source; else the title made of the source's name; else `Wakedev`.
pub open spec fn title_of(
    cli_title: Option<Seq<char>>,
    display_name: Option<Seq<char>>,
    source: Option<Seq<char>>,
) -> Seq<char> {
    if cli_title is Some {
        cli_title->0
    } else if display_name is Some {
        display_name->0
    } else if source is Some {
        source_title(source->0)
    } else {
        "Wakedev"@
    }
}

/// The display name that a source is configured with.
pub open spec fn display_name_of(source_config: Option<&SourceConfig>) -> Option<Seq<char>> {
    match source_config {
        Some(c) => opt_text(c.display_name),
        None => None,
    }
}

/// Resolves the title of a send.
pub fn resolve_title(
    cli_title: Option<String>,
    source_config: Option<&SourceConfig>,
    source: Option<&str>,
) -> (r: String)
    ensures
        r@ == title_of(
            opt_text(cli_title),
            display_name_of(source_config),
            crate::relay::text_of(source),
        ),
{
    if let Some(title) = cli_title {
        return title;
    }
    if let Some(c) = source_config {
        if let Some(display) = &c.display_name {
            return display.clone();
        }
    }
    if let Some(source) = source {
        return title_from_source(source);
    }
    "Wakedev".to_owned()
}

/// The icon that comes with a source by default: there is none.
pub fn default_source_icon(source: Option<&str>) -> (r: Option<PathBuf>)
    ensures
        r is None,
{
    None
}

/// The icon of a send: the one given; else that of the source.
pub open spec fn icon_of(cli_icon: Option<PathBuf>, source_config: Option<&SourceConfig>) -> Option<
    PathBuf,
> {
    if cli_icon is Some {
        cli_icon
    } else {
        match source_config {
            Some(c) => c.icon,
            None => None,
        }
    }
}

/// Resolves the icon of a send.
pub fn resolve_icon(
    cli_icon: Option<PathBuf>,
    source_config: Option<&SourceConfig>,
    source: Option<&str>,
) -> (r: Option<PathBuf>)
    ensures
        r == icon_of(cli_icon, source_config),
{
    if cli_icon.is_some() {
        return cli_icon;
    }
    if let Some(c) = source_config {
        if c.icon.is_some() {
            return c.icon.clone();
        }
    }
    default_source_icon(source)
}

pub fn map_urgency(arg: UrgencyArg) -> (r: Urgency)
    ensures
        r == match arg {
            UrgencyArg::Low => Urgency::Low,
            UrgencyArg::Normal => Urgency::Normal,
            UrgencyArg::High => Urgency::High,
        },
{
    match arg {
        UrgencyArg::Low => Urgency::Low,
        UrgencyArg::Normal => Urgency::Normal,
        UrgencyArg::High => Urgency::High,
    }
}

/// An application bundle that stands for a source in the notification
/// centre.
#[derive(Debug, Clone, PartialEq)]
pub struct BundleSpec {
    pub source: String,
    pub display_name: String,
    pub bundle_id: String,
}

/// Whether `bundle` is the default bundle of `source`: it is shown as
/// `Wakedev` and the title of the source, and identified as
/// `com.wakedev.` and the name of the source.
pub open spec fn default_bundle_of(bundle: BundleSpec, source: Seq<char>) -> bool {
    &&& bundle.source@ == source
    &&& bundle.display_name@ == "Wakedev "@ + source_title(source)
    &&& bundle.bundle_id@ == "com.wakedev."@ + source
}

/// The bundle that a source has by default: each of the sources `bundled`
/// has one, and no other source has.
pub fn default_source_bundle_id(source: Option<&str>, bundled: &[String]) -> (r: Option<BundleSpec>)
    ensures
        match source {
            Some(s) if crate::listener::host_listed(bundled@, s@) => r is Some
                && default_bundle_of(r->0, s@),
            _ => r is None,
        },
{
    let name = match source {
        Some(s) => s,
        None => {
            return None;
        },
    };
    let mut i: usize = 0;
    while i < bundled.len()
        invariant
            i <= bundled@.len(),
            source == Some(name),
            forall|j: int| 0 <= j < i ==> (#[trigger] bundled@[j])@ != name@,
        decreases bundled.len() - i,
    {
        if *bundled[i].as_str() == *name {
            assert(bundled@[i as int]@ == name@);
            let title = title_from_source(name);
            return Some(
                BundleSpec {
                    source: name.to_owned(),
                    display_name: crate::text::concat("Wakedev ", title.as_str()),
                    bundle_id: crate::text::concat("com.wakedev.", name),
                },
            );
        }
        i += 1;
    }
    None
}

/// `base` with its bundle id set to `bundle`, where there is one.
pub open spec fn with_bundle(base: Option<MacosConfig>, bundle: Option<String>) -> Option<
    MacosConfig,
> {
    match bundle {
        Some(b) => Some(
            match base {
                Some(m) => MacosConfig { app_bundle_id: Some(b), ..m },
                None => MacosConfig { sound: None, app_bundle_id: Some(b), icon: None },
            },
        ),
        None => base,
    }
}

/// Whether `config` names no bundle.
pub open spec fn lacks_bundle(config: Option<MacosConfig>) -> bool {
    config is None || config->0.app_bundle_id is None
}

/// The macOS settings of a send: those of the configuration, with the
/// bundle of the source over them, and the default bundle where neither
/// names one.
pub open spec fn macos_config_of(
    configured: Option<MacosConfig>,
    source_bundle: Option<String>,
    default_bundle: Option<String>,
) -> Option<MacosConfig> {
    let sourced = with_bundle(configured, source_bundle);
    if lacks_bundle(sourced) {
        with_bundle(sourced, default_bundle)
    } else {
        sourced
    }
}

/// The macOS settings that the configuration holds.
pub open spec fn configured_macos(config: Option<&Config>) -> Option<MacosConfig> {
    match config {
        Some(c) => c.macos,
        None => None,
    }
}

/// The bundle that a source is configured with.
pub open spec fn source_bundle(source_config: Option<&SourceConfig>) -> Option<String> {
    match source_config {
        Some(c) => c.app_bundle_id,
        None => None,
    }
}

fn set_bundle(base: Option<MacosConfig>, bundle: Option<String>) -> (r: Option<MacosConfig>)
    ensures
        r == with_bundle(base, bundle),
{
    match bundle {
        Some(b) => Some(
            match base {
                Some(m) => MacosConfig { sound: m.sound, app_bundle_id: Some(b), icon: m.icon },
                None => MacosConfig { sound: None, app_bundle_id: Some(b), icon: None },
            },
        ),
        None => base,
    }
}

fn sourced_macos(config: Option<&Config>, source_config: Option<&SourceConfig>) -> (r: Option<
    MacosConfig,
>)
    ensures
        r == with_bundle(configured_macos(config), source_bundle(source_config)),
{
    let configured = match config {
        Some(c) => match &c.macos {
            Some(m) => Some(m.clone()),
            None => None,
        },
        None => None,
    };
    let bundle = match source_config {
        Some(c) => clone_opt(&c.app_bundle_id),
        None => None,
    };
    set_bundle(configured, bundle)
}

/// Resolves the macOS settings of a send. `default_bundle` is the bundle
/// that was set up for the source, where one was.
pub fn resolve_macos_config(
    config: Option<&Config>,
    source_config: Option<&SourceConfig>,
    default_bundle: Option<String>,
) -> (r: Option<MacosConfig>)
    ensures
        r == macos_config_of(
            configured_macos(config),
            source_bundle(source_config),
            default_bundle,
        ),
{
    let sourced = sourced_macos(config, source_config);
    let lacks = match &sourced {
        Some(m) => m.app_bundle_id.is_none(),
        None => true,
    };
    if lacks {
        set_bundle(sourced, default_bundle)
    } else {
        sourced
    }
}

/// The bundle that is to be set up before a local send: the default bundle
/// of the source, where neither the configuration nor the source names
/// one.
pub fn needs_default_bundle(
    config: Option<&Config>,
    source_config: Option<&SourceConfig>,
    source: Option<&str>,
    bundled: &[String],
) -> (r: Option<BundleSpec>)
    ensures
        match source {
            Some(s) if crate::listener::host_listed(bundled@, s@) && lacks_bundle(
                with_bundle(configured_macos(config), source_bundle(source_config)),
            ) => r is Some && default_bundle_of(r->0, s@),
            _ => r is None,
        },
{
    let sourced = sourced_macos(config, source_config);
    let lacks = match &sourced {
        Some(m) => m.app_bundle_id.is_none(),
        None => true,
    };
    if lacks {
        default_source_bundle_id(source, bundled)
    } else {
        None
    }
}

/// What the machine and its environment give to a send.
#[derive(Debug, Clone, PartialEq)]
pub struct Platform {
    /// Whether a local provider exists here.
    pub local_available: bool,
    /// Whether image icons may be used.
    pub allow_image_icons: bool,
    /// The label under which this host is named to a listener.
    pub origin_host: Option<String>,
}

/// How a local delivery is made.
#[derive(Debug, Clone, PartialEq)]
pub enum Delivery {
    /// Hand the wait over to a detached process, which gets the payload.
    Handoff { payload: WaitPayload, json: bool },
    /// Call the provider now.
    Direct {
        notification: Notification,
        macos: Option<MacosConfig>,
        options: SendOptions,
        on_click: Option<String>,
        context: Option<Context>,
        json: bool,
    },
}

/// Decides how a notification is delivered locally. A background
/// delivery hands over to a detached waiter and needs a click command; any
/// other calls the provider, and waits for a click where that is asked for
/// or a click command is given.
pub fn deliver_macos(
    notification: Notification,
    macos_config: Option<MacosConfig>,
    on_click: Option<String>,
    background: bool,
    wait_for_click: bool,
    json: bool,
    context: Option<Context>,
) -> (r: Result<Delivery, NotifallError>)
    ensures
        background && on_click is None ==> r == Err::<Delivery, NotifallError>(
            NotifallError::BackgroundRequiresOnClick,
        ),
        background && on_click is Some ==> r == Ok::<Delivery, NotifallError>(
            Delivery::Handoff {
                payload: WaitPayload { notification, macos: macos_config, on_click, context },
                json,
            },
        ),
        !background ==> r == Ok::<Delivery, NotifallError>(
            Delivery::Direct {
                notification,
                macos: macos_config,
                options: SendOptions { wait_for_click: wait_for_click || on_click is Some },
                on_click,
                context,
                json,
            },
        ),
{
    if background {
        if on_click.is_none() {
            return Err(NotifallError::BackgroundRequiresOnClick);
        }
        return Ok(
            Delivery::Handoff {
                payload: WaitPayload { notification, macos: macos_config, on_click, context },
                json,
            },
        );
    }
    let wait = wait_for_click || on_click.is_some();
    Ok(
        Delivery::Direct {
            notification,
            macos: macos_config,
            options: SendOptions { wait_for_click: wait },
            on_click,
            context,
            json,
        },
    )
}

/// A command to run on a click, with the variables to set for it.
#[derive(Debug, Clone, PartialEq)]
pub struct ClickCommand {
    pub command: String,
    pub env: Vec<(String, String)>,
}

/// Whether an outcome fires the click command.
pub open spec fn fires(outcome: Option<DeliveryOutcome>) -> bool {
    outcome matches Some(o) && (o is Clicked || o is ActionButton)
}

/// One variable, where it has a value.
pub open spec fn env_entry(name: Seq<char>, value: Option<Seq<char>>) -> Seq<
    (Seq<char>, Seq<char>),
> {
    match value {
        Some(v) => seq![(name, v)],
        None => seq![],
    }
}

/// The variables that tell a click command about the context.
pub open spec fn context_env(context: Option<&Context>, context_json: Option<Seq<char>>) -> Seq<
    (Seq<char>, Seq<char>),
> {
    match context {
        None => seq![],
        Some(c) => {
            let tmux = match c.tmux {
                Some(t) => seq![
                    ("WAKEDEV_TMUX_SESSION"@, t.session@),
                    ("WAKEDEV_TMUX_WINDOW"@, t.window@),
                    ("WAKEDEV_TMUX_PANE"@, t.pane@),
                    ("WAKEDEV_TMUX_CLIENT"@, t.client@),
                ],
                None => seq![],
            };
            let app = match c.terminal {
                Some(t) => opt_text(t.app),
                None => None,
            };
            tmux + env_entry("WAKEDEV_TERMINAL_APP"@, app) + env_entry(
                "WAKEDEV_CONTEXT_JSON"@,
                context_json,
            )
        },
    }
}

/// The variables that a click command is started with, in order.
pub open spec fn click_env(
    notification: NotificationView,
    context: Option<&Context>,
    context_json: Option<Seq<char>>,
) -> Seq<(Seq<char>, Seq<char>)> {
    env_entry("WAKEDEV_SOURCE"@, notification.source) + seq![
        ("WAKEDEV_TITLE"@, notification.title),
        ("WAKEDEV_MESSAGE"@, notification.message),
    ] + env_entry("WAKEDEV_TAG"@, notification.tag) + context_env(context, context_json)
}

fn push_var(env: &mut Vec<(String, String)>, name: &str, value: &str)
    ensures
        final(env).deep_view() == old(env).deep_view().push((name@, value@)),
{
    env.push((name.to_owned(), value.to_owned()));
    assert(env.deep_view() =~= old(env).deep_view().push((name@, value@)));
}

/// The click policy. The command fires only when the notification was
/// clicked or one of its buttons was pressed, and only where there is a
/// command. `context_json` is the context as JSON, where it could be
/// written as such.
pub fn handle_click(
    outcome: Option<DeliveryOutcome>,
    on_click: Option<&str>,
    notification: &Notification,
    context: Option<&Context>,
    context_json: Option<String>,
) -> (r: Option<ClickCommand>)
    ensures
        r is Some <==> fires(outcome) && on_click is Some,
        r is Some ==> r->0.command@ == on_click->0@ && r->0.env.deep_view() == click_env(
            notification@,
            context,
            opt_text(context_json),
        ),
{
    let command = match (&outcome, on_click) {
        (Some(DeliveryOutcome::Clicked), Some(c)) => c,
        (Some(DeliveryOutcome::ActionButton(_)), Some(c)) => c,
        _ => {
            return None;
        },
    };
    let mut env: Vec<(String, String)> = Vec::new();
    assert(env.deep_view() =~= Seq::<(Seq<char>, Seq<char>)>::empty());
    if let Some(source) = &notification.source {
        push_var(&mut env, "WAKEDEV_SOURCE", source.as_str());
    }
    push_var(&mut env, "WAKEDEV_TITLE", notification.title.as_str());
    push_var(&mut env, "WAKEDEV_MESSAGE", notification.message.as_str());
    if let Some(tag) = &notification.tag {
        push_var(&mut env, "WAKEDEV_TAG", tag.as_str());
    }
    let ghost head = env.deep_view();
    assert(head =~= env_entry("WAKEDEV_SOURCE"@, notification@.source) + seq![
        ("WAKEDEV_TITLE"@, notification@.title),
        ("WAKEDEV_MESSAGE"@, notification@.message),
    ] + env_entry("WAKEDEV_TAG"@, notification@.tag));
    if let Some(c) = context {
        if let Some(tmux) = &c.tmux {
            push_var(&mut env, "WAKEDEV_TMUX_SESSION", tmux.session.as_str());
            push_var(&mut env, "WAKEDEV_TMUX_WINDOW", tmux.window.as_str());
            push_var(&mut env, "WAKEDEV_TMUX_PANE", tmux.pane.as_str());
            push_var(&mut env, "WAKEDEV_TMUX_CLIENT", tmux.client.as_str());
        }
        if let Some(terminal) = &c.terminal {
            if let Some(app) = &terminal.app {
                push_var(&mut env, "WAKEDEV_TERMINAL_APP", app.as_str());
            }
        }
        if let Some(json) = &context_json {
            push_var(&mut env, "WAKEDEV_CONTEXT_JSON", json.as_str());
        }
    }
    assert(env.deep_view() =~= head + context_env(context, opt_text(context_json)));
    Some(ClickCommand { command: command.to_owned(), env })
}

/// The outcome of a send, in the shape in which it is reported.
#[derive(Debug, Clone, PartialEq)]
pub enum ReportedOutcome {
    /// Nothing was waited for.
    Null,
    /// A bare word.
    Word(&'static str),
    /// An object that holds its kind under `type`, and one more field.
    Tagged { kind: &'static str, field: &'static str, value: String },
}

/// The report of a send, for callers that read it by machine.
#[derive(Debug, Clone, PartialEq)]
pub struct SendOutput {
    pub provider: String,
    pub background: bool,
    pub outcome: ReportedOutcome,
    /// The path of the handoff file of a background send.
    pub payload: Option<String>,
}

/// Whether `reported` is the shape in which `outcome` is reported.
pub open spec fn reports(reported: ReportedOutcome, outcome: Option<DeliveryOutcome>) -> bool {
    match outcome {
        None => reported is Null,
        Some(DeliveryOutcome::Delivered) => reported matches ReportedOutcome::Word(w) && w@
            == "delivered"@,
        Some(DeliveryOutcome::Clicked) => reported matches ReportedOutcome::Word(w) && w@
            == "clicked"@,
        Some(DeliveryOutcome::ActionButton(label)) => reported matches ReportedOutcome::Tagged {
            kind,
            field,
            value,
        } && kind@ == "action"@ && field@ == "label"@ && value == label,
        Some(DeliveryOutcome::Closed(label)) => reported matches ReportedOutcome::Tagged {
            kind,
            field,
            value,
        } && kind@ == "closed"@ && field@ == "label"@ && value == label,
        Some(DeliveryOutcome::Replied(text)) => reported matches ReportedOutcome::Tagged {
            kind,
            field,
            value,
        } && kind@ == "reply"@ && field@ == "text"@ && value == text,
    }
}

/// Makes the report of a send: the provider, whether the send went to the
/// background, the outcome, and the handoff file of a background send.
pub fn print_send_output(
    provider: &str,
    outcome: Option<DeliveryOutcome>,
    background: bool,
    payload: Option<String>,
) -> (r: SendOutput)
    ensures
        r.provider@ == provider@,
        r.background == background,
        reports(r.outcome, outcome),
        r.payload == payload,
{
    let reported = match outcome {
        None => ReportedOutcome::Null,
        Some(DeliveryOutcome::Delivered) => ReportedOutcome::Word("delivered"),
        Some(DeliveryOutcome::Clicked) => ReportedOutcome::Word("clicked"),
        Some(DeliveryOutcome::ActionButton(label)) => ReportedOutcome::Tagged {
            kind: "action",
            field: "label",
            value: label,
        },
        Some(DeliveryOutcome::Closed(label)) => ReportedOutcome::Tagged {
            kind: "closed",
            field: "label",
            value: label,
        },
        Some(DeliveryOutcome::Replied(text)) => ReportedOutcome::Tagged {
            kind: "reply",
            field: "text",
            value: text,
        },
    };
    SendOutput { provider: provider.to_owned(), background, outcome: reported, payload }
}

/// A send that goes to the local provider.
#[derive(Debug, Clone, PartialEq)]
pub struct LocalSend {
    pub notification: Notification,
    pub on_click: Option<String>,
    pub background: bool,
    pub wait_for_click: bool,
    pub json: bool,
    pub context: Option<Context>,
}

impl LocalSend {
    /// Decides how the send is delivered, once its macOS settings are
    /// resolved.
    pub fn deliver(self, macos_config: Option<MacosConfig>) -> (r: Result<Delivery, NotifallError>)
        ensures
            self.background && self.on_click is None ==> r == Err::<Delivery, NotifallError>(
                NotifallError::BackgroundRequiresOnClick,
            ),
            self.background && self.on_click is Some ==> r == Ok::<Delivery, NotifallError>(
                Delivery::Handoff {
                    payload: WaitPayload {
                        notification: self.notification,
                        macos: macos_config,
                        on_click: self.on_click,
                        context: self.context,
                    },
                    json: self.json,
                },
            ),
            !self.background ==> r == Ok::<Delivery, NotifallError>(
                Delivery::Direct {
                    notification: self.notification,
                    macos: macos_config,
                    options: SendOptions {
                        wait_for_click: self.wait_for_click || self.on_click is Some,
                    },
                    on_click: self.on_click,
                    context: self.context,
                    json: self.json,
                },
            ),
    {
        deliver_macos(
            self.notification,
            macos_config,
            self.on_click,
            self.background,
            self.wait_for_click,
            self.json,
            self.context,
        )
    }
}

/// A send that goes to a listener on another host.
#[derive(Debug, Clone, PartialEq)]
pub struct RemoteSend {
    pub target: RemoteTarget,
    pub token: Option<String>,
    pub timeout_ms: u64,
    /// The number of requests that may follow a failed first one.
    pub retries: u32,
    /// Whether a send that failed on every attempt is delivered locally.
    pub fallback: bool,
    pub envelope: RemoteEnvelope,
    /// The local send to fall back to, with the notification as it was.
    pub local: LocalSend,
}

/// Where a send goes.
#[derive(Debug, Clone, PartialEq)]
pub enum SendPlan {
    Local(LocalSend),
    Remote(RemoteSend),
}

/// The sound of a send: `none` for a silent one, else the one given.
pub open spec fn sound_of(args: SendArgs) -> Option<Seq<char>> {
    if args.silent {
        Some("none"@)
    } else {
        opt_text(args.sound)
    }
}

/// The icon that a send shows: none where icons are switched off or image
/// icons are not allowed, else the resolved one.
pub open spec fn shown_icon(
    args: SendArgs,
    source_config: Option<&SourceConfig>,
    allow_image_icons: bool,
) -> Option<PathBuf> {
    if args.no_icon || !allow_image_icons {
        None
    } else {
        icon_of(args.icon, source_config)
    }
}

/// The notification that a send makes of its arguments.
pub open spec fn built(
    args: SendArgs,
    source: Option<Seq<char>>,
    source_config: Option<&SourceConfig>,
    allow_image_icons: bool,
) -> NotificationView {
    NotificationView {
        title: title_of(opt_text(args.title), display_name_of(source_config), source),
        message: args.message@,
        source,
        icon: shown_icon(args, source_config, allow_image_icons),
        link: opt_text(args.link),
        sound: sound_of(args),
        urgency: match args.urgency {
            Some(UrgencyArg::Low) => Some(Urgency::Low),
            Some(UrgencyArg::Normal) => Some(Urgency::Normal),
            Some(UrgencyArg::High) => Some(Urgency::High),
            None => None,
        },
        tag: opt_text(args.tag),
        sender: None,
        dedupe_key: None,
        metadata: None,
        actions: seq![],
    }
}

/// The configuration of `source` in `config`, as a reference.
pub open spec fn source_config_ref(config: Option<&Config>, source: Option<Seq<char>>) -> Option<
    &SourceConfig,
> {
    match source_config_of(
        match config {
            Some(c) => Some(*c),
            None => None,
        },
        source,
    ) {
        Some(c) => Some(&c),
        None => None,
    }
}

/// Whether `local` is the local send that the arguments ask for.
pub open spec fn local_of(
    local: LocalSend,
    source: Option<Seq<char>>,
    config: Option<&Config>,
    args: SendArgs,
    context: Option<Context>,
    platform: Platform,
) -> bool {
    &&& local.notification@ == built(
        args,
        source,
        source_config_ref(config, source),
        platform.allow_image_icons,
    )
    &&& local.on_click == args.on_click
    &&& local.background == args.background
    &&& local.wait_for_click == args.wait_for_click
    &&& local.json == args.json
    &&& local.context == context
}

/// The remote settings that the configuration holds.
pub open spec fn configured_remote(config: Option<&Config>) -> RemoteConfig {
    match config {
        Some(c) if c.remote is Some => c.remote->0,
        _ => RemoteConfig {
            host: None,
            port: None,
            url: None,
            token: None,
            timeout_ms: None,
            retries: None,
            fallback_to_local: None,
            forward_enabled: None,
            previous_provider: None,
        },
    }
}

/// The endpoint that a send is relayed to.
pub open spec fn send_target(args: SendArgs, remote: RemoteConfig) -> Option<(Seq<char>, u16)> {
    target_of(
        opt_text(args.remote_host),
        args.remote_port,
        opt_text(remote.host),
        remote.port,
        opt_text(remote.url),
    )
}

/// Whether `send` is the remote send that the arguments ask for. What the
/// command line gives wins over the configuration; by default a request
/// times out after 2000 ms, two more requests may follow a failed one, and
/// a failed send falls back to local delivery.
pub open spec fn remote_of(
    send: RemoteSend,
    source: Option<Seq<char>>,
    config: Option<&Config>,
    args: SendArgs,
    context: Option<Context>,
    platform: Platform,
) -> bool {
    let remote = configured_remote(config);
    &&& match send_target(args, remote) {
        Some((host, port)) => send.target.host@ == host && send.target.port == port
            && send.target.url@ == notify_url(host, port),
        None => false,
    }
    &&& send.token == crate::listener::first_of(args.remote_token, remote.token)
    &&& send.timeout_ms == match crate::listener::first_of(
        args.remote_timeout_ms,
        remote.timeout_ms,
    ) {
        Some(t) => t,
        None => 2000u64,
    }
    &&& send.retries == match crate::listener::first_of(args.remote_retries, remote.retries) {
        Some(n) => n,
        None => 2u32,
    }
    &&& send.fallback == (!args.no_fallback && remote.fallback_to_local != Some(false))
    &&& send.envelope.notification@ == (NotificationView {
        icon: None,
        ..built(args, source, source_config_ref(config, source), platform.allow_image_icons)
    })
    &&& send.envelope.context == Some(RemoteContext { origin_host: platform.origin_host })
    &&& local_of(send.local, source, config, args, context, platform)
}

/// Whether `r` is what a send to `provider` comes to.
pub open spec fn planned(
    r: Result<SendPlan, NotifallError>,
    provider: Seq<char>,
    source: Option<Seq<char>>,
    config: Option<&Config>,
    args: SendArgs,
    context: Option<Context>,
    platform: Platform,
) -> bool {
    if args.background && args.on_click is None {
        r == Err::<SendPlan, NotifallError>(NotifallError::BackgroundRequiresOnClick)
    } else if provider == "macos"@ {
        r matches Ok(SendPlan::Local(local)) && local_of(
            local,
            source,
            config,
            args,
            context,
            platform,
        )
    } else if provider == "remote"@ {
        if send_target(args, configured_remote(config)) is None {
            r matches Err(NotifallError::Provider(ProviderError::Message(m))) && m@
                == "remote host is not configured"@
        } else {
            r matches Ok(SendPlan::Remote(send)) && remote_of(
                send,
                source,
                config,
                args,
                context,
                platform,
            )
        }
    } else {
        r matches Err(NotifallError::ProviderUnsupported(p)) && p@ == provider
    }
}

fn as_str_opt(s: &Option<String>) -> (r: Option<&str>)
    ensures
        text_of(r) == opt_text(*s),
{
    match s {
        Some(v) => Some(v.as_str()),
        None => None,
    }
}

/// Plans a send to the provider `provider`, for the source `source`. A
/// background send without a click command is refused before anything
/// else; a provider other than `macos` and `remote` is unsupported; a
/// remote send without an endpoint is a configuration error.
pub fn plan_send(
    provider: &str,
    source: Option<String>,
    config: Option<&Config>,
    args: SendArgs,
    context: Option<Context>,
    platform: Platform,
) -> (r: Result<SendPlan, NotifallError>)
    ensures
        planned(r, provider@, opt_text(source), config, args, context, platform),
{
    if args.background && args.on_click.is_none() {
        return Err(NotifallError::BackgroundRequiresOnClick);
    }
    let is_local = *provider == *"macos";
    let is_remote = *provider == *"remote";
    proof {
        reveal_strlit("macos");
        reveal_strlit("remote");
        assert("macos"@.len() != "remote"@.len());
    }
    if !is_local && !is_remote {
        return Err(NotifallError::ProviderUnsupported(provider.to_owned()));
    }
    let remote_plan = if is_remote {
        let remote = match config {
            Some(c) => c.remote.as_ref(),
            None => None,
        };
        let (host, port, url, token, timeout_ms, retries, fallback_to_local) = match remote {
            Some(r) => (
                as_str_opt(&r.host),
                r.port,
                as_str_opt(&r.url),
                clone_opt(&r.token),
                r.timeout_ms,
                r.retries,
                r.fallback_to_local,
            ),
            None => (None, None, None, None, None, None, None),
        };
        let target = match resolve_remote_target(
            as_str_opt(&args.remote_host),
            args.remote_port,
            host,
            port,
            url,
        ) {
            Some(t) => t,
            None => {
                return Err(
                    NotifallError::Provider(
                        ProviderError::Message("remote host is not configured".to_owned()),
                    ),
                );
            },
        };
        let token = match args.remote_token {
            Some(t) => Some(t),
            None => token,
        };
        let timeout_ms: u64 = match args.remote_timeout_ms {
            Some(t) => t,
            None => match timeout_ms {
                Some(t) => t,
                None => 2000,
            },
        };
        let retries: u32 = match args.remote_retries {
            Some(n) => n,
            None => match retries {
                Some(n) => n,
                None => 2,
            },
        };
        let fallback = !args.no_fallback && match fallback_to_local {
            Some(f) => f,
            None => true,
        };
        Some((target, token, timeout_ms, retries, fallback))
    } else {
        None
    };
    let source_config = resolve_source_config(config, as_str_opt(&source));
    let title = resolve_title(args.title, source_config, as_str_opt(&source));
    let icon = if args.no_icon || !platform.allow_image_icons {
        None
    } else {
        resolve_icon(args.icon, source_config, as_str_opt(&source))
    };
    let sound = if args.silent {
        Some("none".to_owned())
    } else {
        args.sound
    };
    let notification = Notification {
        title,
        message: args.message,
        source,
        icon,
        link: args.link,
        sound,
        urgency: match args.urgency {
            Some(u) => Some(map_urgency(u)),
            None => None,
        },
        tag: args.tag,
        sender: None,
        dedupe_key: None,
        metadata: None,
        actions: Vec::new(),
    };
    assert(notification.actions.deep_view() =~= Seq::empty());
    match remote_plan {
        None => Ok(
            SendPlan::Local(
                LocalSend {
                    notification,
                    on_click: args.on_click,
                    background: args.background,
                    wait_for_click: args.wait_for_click,
                    json: args.json,
                    context,
                },
            ),
        ),
        Some((target, token, timeout_ms, retries, fallback)) => {
            let envelope = RemoteEnvelope::new(
                &notification,
                RemoteContext::from_local(context.as_ref(), platform.origin_host),
            );
            Ok(
                SendPlan::Remote(
                    RemoteSend {
                        target,
                        token,
                        timeout_ms,
                        retries,
                        fallback,
                        envelope,
                        local: LocalSend {
                            notification,
                            on_click: args.on_click,
                            background: args.background,
                            wait_for_click: args.wait_for_click,
                            json: args.json,
                            context,
                        },
                    },
                ),
            )
        },
    }
}

/// The source of a send, in lower case.
pub open spec fn source_key(args: SendArgs) -> Option<Seq<char>> {
    match args.source {
        Some(s) => Some(lowercase(s@)),
        None => None,
    }
}

/// Plans a send: resolves the provider and the source and plans the send
/// to them. A background send without a click command fails whatever the
/// provider is.
pub fn handle_send(
    config: Option<&Config>,
    args: SendArgs,
    context: Option<Context>,
    platform: Platform,
) -> (r: Result<SendPlan, NotifallError>)
    ensures
        args.background && args.on_click is None ==> r == Err::<SendPlan, NotifallError>(
            NotifallError::BackgroundRequiresOnClick,
        ),
        !(args.background && args.on_click is None) ==> match provider_choice(
            opt_text(args.provider),
            match config {
                Some(c) => Some(*c),
                None => None,
            },
            platform.local_available,
        ) {
            None => r == Err::<SendPlan, NotifallError>(NotifallError::NoProviderAvailable),
            Some(provider) => planned(
                r,
                provider,
                source_key(args),
                config,
                args,
                context,
                platform,
            ),
        },
{
    if args.background && args.on_click.is_none() {
        return Err(NotifallError::BackgroundRequiresOnClick);
    }
    let provider = match resolve_provider(
        as_str_opt(&args.provider),
        config,
        platform.local_available,
    ) {
        Ok(p) => p,
        Err(e) => {
            return Err(e);
        },
    };
    let source = match &args.source {
        Some(s) => Some(s.as_str().to_lowercase()),
        None => None,
    };
    plan_send(provider.as_str(), source, config, args, context, platform)
}

/// What a remote send comes to after an answer.
#[derive(Debug, Clone, PartialEq)]
pub enum Conclusion {
    /// Make one more request.
    Request(RelayState, RemoteSend),
    /// The listener took the notification.
    Delivered { json: bool },
    /// Every attempt failed: deliver locally.
    Fallback(LocalSend),
    /// Every attempt failed, and that is the end of it.
    Failed(NotifallError),
}

impl RemoteSend {
    /// The state before the first request.
    pub fn begin(&self) -> (r: RelayState)
        ensures
            r == (RelayState { retries: self.retries, answered: 0 }),
    {
        RelayState::begin(self.retries)
    }

    /// Whether `r` is what the send comes to when `result` answers the
    /// request that was due in `state`.
    pub open spec fn concluded(
        self,
        r: Conclusion,
        state: RelayState,
        result: AttemptResult,
        local_available: bool,
    ) -> bool {
        match state.step(result) {
            RelayStepView::Delivered => r == (Conclusion::Delivered { json: self.local.json }),
            RelayStepView::Request(next) => r == Conclusion::Request(next, self),
            RelayStepView::Failed(text) => if self.fallback && local_available {
                r == Conclusion::Fallback(self.local)
            } else {
                r matches Conclusion::Failed(NotifallError::Provider(ProviderError::Message(m)))
                    && m@ == text
            },
        }
    }

    /// Takes the answer to the request that was due. The send falls back
    /// to local delivery only when the last permitted request has failed,
    /// fallback is on and a local provider exists; with fallback off, or
    /// without a local provider, the error of the last request is
    /// reported as it is.
    pub fn conclude(self, state: RelayState, result: AttemptResult, local_available: bool) -> (r:
        Conclusion)
        ensures
            self.concluded(r, state, result, local_available),
            r is Fallback <==> !result.is_success() && state.answered >= state.retries
                && self.fallback && local_available,
            r is Failed <==> !result.is_success() && state.answered >= state.retries && !(
            self.fallback && local_available),
    {
        match state.advance(result) {
            RelayStep::Delivered => Conclusion::Delivered { json: self.local.json },
            RelayStep::Request(next) => Conclusion::Request(next, self),
            RelayStep::Failed(text) => {
                if self.fallback && local_available {
                    Conclusion::Fallback(self.local)
                } else {
                    Conclusion::Failed(crate::relay::relay_error(text))
                }
            },
        }
    }
}

/// A liveness probe of a listener.
#[derive(Debug, Clone, PartialEq)]
pub struct PingPlan {
    pub url: String,
    pub token: Option<String>,
    pub timeout_ms: u64,
}

/// Plans a liveness probe: one request to the ping path of the resolved
/// endpoint, with a timeout of 2000 ms.
pub fn handle_remote_ping(args: RemotePingArgs, remote: Option<&RemoteConfig>) -> (r: Result<
    PingPlan,
    NotifallError,
>)
    ensures
        match target_of(
            opt_text(args.remote_host),
            args.remote_port,
            match remote {
                Some(c) => opt_text(c.host),
                None => None,
            },
            match remote {
                Some(c) => c.port,
                None => None,
            },
            match remote {
                Some(c) => opt_text(c.url),
                None => None,
            },
        ) {
            Some((host, port)) => r matches Ok(plan) && plan.url@ == "http://"@ + host + ":"@
                + crate::text::decimal(port as nat) + "/ping"@ && plan.timeout_ms == 2000
                && plan.token == crate::listener::first_of(
                args.remote_token,
                match remote {
                    Some(c) => c.token,
                    None => None,
                },
            ),
            None => r matches Err(NotifallError::Provider(ProviderError::Message(m))) && m@
                == "remote host is not configured"@,
        },
{
    let (host, port, url, token) = match remote {
        Some(c) => (as_str_opt(&c.host), c.port, as_str_opt(&c.url), clone_opt(&c.token)),
        None => (None, None, None, None),
    };
    let target = match resolve_remote_target(
        as_str_opt(&args.remote_host),
        args.remote_port,
        host,
        port,
        url,
    ) {
        Some(t) => t,
        None => {
            return Err(
                NotifallError::Provider(
                    ProviderError::Message("remote host is not configured".to_owned()),
                ),
            );
        },
    };
    let token = match args.remote_token {
        Some(t) => Some(t),
        None => token,
    };
    proof {
        crate::relay::lemma_ping_of_notify_url(target.host@, target.port);
    }
    Ok(PingPlan { url: to_ping_url(target.url.as_str()), token, timeout_ms: 2000 })
}

/// The error of a probe that failed for the reason `why`.
pub fn ping_error(why: &str) -> (r: NotifallError)
    ensures
        r matches NotifallError::Provider(ProviderError::Message(m)) && m@
            == "remote ping failed: "@ + why@,
{
    NotifallError::Provider(ProviderError::Message(crate::text::concat("remote ping failed: ", why)))
}

/// The value of the `Authorization` header that carries `token`.
pub fn bearer(token: &str) -> (r: String)
    ensures
        r@ == "Bearer "@ + token@,
{
    crate::text::concat("Bearer ", token)
}

/// The lines that list the providers: `remote` everywhere, and `macos`
/// where a local provider exists.
pub fn handle_providers_list(local_available: bool) -> (r: Vec<&'static str>)
    ensures
        r@.len() == 2,
        r@[0]@ == "remote"@,
        r@[1]@ == if local_available {
            "macos"@
        } else {
            "(no providers available on this platform yet)"@
        },
{
    let mut lines: Vec<&'static str> = Vec::new();
    lines.push("remote");
    if local_available {
        lines.push("macos");
    } else {
        lines.push("(no providers available on this platform yet)");
    }
    lines
}

/// Whether image icons may be used: only where the setting for it is `1`.
pub fn allow_image_icons(setting: Option<&str>) -> (r: bool)
    ensures
        r == (setting is Some && setting->0@ == "1"@),
{
    match setting {
        Some(v) => *v == *"1",
        None => false,
    }
}

/// The click command that focuses through the program at `exe`.
pub fn default_focus_command(exe: &str) -> (r: String)
    ensures
        r@ == exe@ + " focus"@,
{
    crate::text::concat(exe, " focus")
}

} // verus!
