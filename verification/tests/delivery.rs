use std::path::PathBuf;
use wakedev::cli::{RemotePingArgs, SendArgs, UrgencyArg};
use wakedev::config::{Config, MacosConfig, RemoteConfig, SourceConfig};
use wakedev::context::{Context, TerminalContext, TmuxContext};
use wakedev::delivery::{
    allow_image_icons, bearer, default_focus_command, default_source_bundle_id,
    default_source_icon, deliver_macos, handle_click, handle_providers_list, handle_remote_ping,
    handle_send, map_urgency, needs_default_bundle, ping_error, plan_send, print_send_output,
    resolve_icon, resolve_macos_config, resolve_provider, resolve_source_config, resolve_title,
    title_from_source, title_with_initial, Conclusion, Delivery, LocalSend, Platform, ReportedOutcome, SendPlan,
};
use wakedev::error::NotifallError;
use wakedev::notification::{Notification, Urgency};
use wakedev::payload::WaitPayload;
use wakedev::provider::{DeliveryOutcome, ProviderError, SendOptions};
use wakedev::relay::{AttemptResult, RelayState};
use wakedev::remote::RemoteContext;

fn send_args(message: &str) -> SendArgs {
    SendArgs {
        title: None,
        message: message.to_string(),
        icon: None,
        no_icon: false,
        link: None,
        sound: None,
        silent: false,
        telegram_token: None,
        telegram_chat_id: None,
        telegram_parse_mode: None,
        telegram_silent: false,
        urgency: None,
        tag: None,
        source: None,
        on_click: None,
        wait_for_click: false,
        background: false,
        json: false,
        provider: None,
        remote_host: None,
        remote_port: None,
        remote_token: None,
        remote_timeout_ms: None,
        remote_retries: None,
        no_fallback: false,
    }
}

fn platform(local_available: bool) -> Platform {
    Platform { local_available, allow_image_icons: false, origin_host: Some("here".to_string()) }
}

fn forwarding(host: &str, port: u16) -> Config {
    Config {
        remote: Some(RemoteConfig {
            host: Some(host.to_string()),
            port: Some(port),
            forward_enabled: Some(true),
            ..RemoteConfig::default()
        }),
        ..Config::default()
    }
}

fn context() -> Context {
    Context {
        tmux: Some(TmuxContext {
            session: "$1".to_string(),
            window: "@2".to_string(),
            pane: "%3".to_string(),
            client: "/dev/ttys004".to_string(),
        }),
        terminal: Some(TerminalContext { app: Some("ghostty".to_string()) }),
    }
}

fn pair(name: &str, value: &str) -> (String, String) {
    (name.to_string(), value.to_string())
}

#[test]
fn provider_on_the_command_line_wins_in_lower_case() {
    let config = forwarding("h", 9);
    assert_eq!(resolve_provider(Some("MacOS"), Some(&config), false), Ok("macos".to_string()));
    assert_eq!(resolve_provider(Some("Other"), None, true), Ok("other".to_string()));
}

#[test]
fn forwarding_flag_wins_over_the_default_provider() {
    let mut config = forwarding("h", 9);
    config.default_provider = Some("macos".to_string());
    assert_eq!(resolve_provider(None, Some(&config), true), Ok("remote".to_string()));
    config.remote.as_mut().unwrap().forward_enabled = Some(false);
    assert_eq!(resolve_provider(None, Some(&config), true), Ok("macos".to_string()));
    config.remote.as_mut().unwrap().forward_enabled = None;
    config.default_provider = Some("REMOTE".to_string());
    assert_eq!(resolve_provider(None, Some(&config), true), Ok("remote".to_string()));
}

#[test]
fn platform_gives_the_last_default() {
    assert_eq!(resolve_provider(None, None, true), Ok("macos".to_string()));
    assert_eq!(resolve_provider(None, Some(&Config::default()), true), Ok("macos".to_string()));
    assert_eq!(resolve_provider(None, None, false), Err(NotifallError::NoProviderAvailable));
}

#[test]
fn source_is_looked_up_by_name() {
    let codex = SourceConfig { display_name: Some("Codex CLI".to_string()), ..Default::default() };
    let other = SourceConfig { display_name: Some("Other".to_string()), ..Default::default() };
    let config = Config {
        sources: Some(vec![("other".to_string(), other), ("codex".to_string(), codex)]),
        ..Config::default()
    };
    let found = resolve_source_config(Some(&config), Some("codex")).unwrap();
    assert_eq!(found.display_name, Some("Codex CLI".to_string()));
    assert_eq!(resolve_source_config(Some(&config), Some("Codex")), None);
    assert_eq!(resolve_source_config(Some(&config), None), None);
    assert_eq!(resolve_source_config(None, Some("codex")), None);
    assert_eq!(resolve_source_config(Some(&Config::default()), Some("codex")), None);
}

#[test]
fn title_is_resolved_in_order() {
    let named = SourceConfig { display_name: Some("Shown".to_string()), ..Default::default() };
    let bare = SourceConfig::default();
    assert_eq!(resolve_title(Some("Given".to_string()), Some(&named), Some("codex")), "Given");
    assert_eq!(resolve_title(None, Some(&named), Some("codex")), "Shown");
    assert_eq!(resolve_title(None, Some(&bare), Some("codex")), "Codex");
    assert_eq!(resolve_title(None, None, Some("codex")), "Codex");
    assert_eq!(resolve_title(None, None, None), "Wakedev");
}

#[test]
fn source_title_has_its_first_letter_in_upper_case() {
    assert_eq!(title_from_source("codex"), "Codex");
    assert_eq!(title_from_source("c"), "C");
    assert_eq!(title_from_source(""), "Wakedev");
    assert_eq!(title_from_source("ßeta"), "SSeta");
    assert_eq!(title_from_source("9lives"), "9lives");
    assert_eq!(title_from_source("éa b"), "Éa b");
    assert_eq!(title_with_initial("X".to_string(), "abc"), "Xbc");
    assert_eq!(title_with_initial("SS".to_string(), "ß"), "SS");
    assert_eq!(title_with_initial("X".to_string(), ""), "Wakedev");
}

#[test]
fn icon_is_resolved_in_order() {
    let with_icon =
        SourceConfig { icon: Some(PathBuf::from("/s.icns")), ..SourceConfig::default() };
    assert_eq!(
        resolve_icon(Some(PathBuf::from("/c.png")), Some(&with_icon), Some("codex")),
        Some(PathBuf::from("/c.png"))
    );
    assert_eq!(resolve_icon(None, Some(&with_icon), Some("codex")), Some(PathBuf::from("/s.icns")));
    assert_eq!(resolve_icon(None, Some(&SourceConfig::default()), Some("codex")), None);
    assert_eq!(resolve_icon(None, None, None), None);
    assert_eq!(default_source_icon(Some("codex")), None);
    assert_eq!(default_source_icon(None), None);
}

#[test]
fn urgency_is_mapped_one_to_one() {
    assert_eq!(map_urgency(UrgencyArg::Low), Urgency::Low);
    assert_eq!(map_urgency(UrgencyArg::Normal), Urgency::Normal);
    assert_eq!(map_urgency(UrgencyArg::High), Urgency::High);
}

fn bundled() -> Vec<String> {
    vec!["agent".to_string(), "codex".to_string()]
}

#[test]
fn bundled_sources_have_a_default_bundle() {
    let bundle = default_source_bundle_id(Some("codex"), &bundled()).unwrap();
    assert_eq!(bundle.source, "codex");
    assert_eq!(bundle.display_name, "Wakedev Codex");
    assert_eq!(bundle.bundle_id, "com.wakedev.codex");
    let bundle = default_source_bundle_id(Some("agent"), &bundled()).unwrap();
    assert_eq!(bundle.source, "agent");
    assert_eq!(bundle.display_name, "Wakedev Agent");
    assert_eq!(bundle.bundle_id, "com.wakedev.agent");
    assert_eq!(default_source_bundle_id(Some("Codex"), &bundled()), None);
    assert_eq!(default_source_bundle_id(Some(""), &bundled()), None);
    assert_eq!(default_source_bundle_id(Some("codex"), &[]), None);
    assert_eq!(default_source_bundle_id(None, &bundled()), None);
}

#[test]
fn macos_settings_take_the_bundle_of_the_source() {
    let config = Config {
        macos: Some(MacosConfig {
            sound: Some("Ping".to_string()),
            app_bundle_id: Some("com.configured".to_string()),
            icon: Some(PathBuf::from("/i.png")),
        }),
        ..Config::default()
    };
    let source =
        SourceConfig { app_bundle_id: Some("com.source".to_string()), ..Default::default() };
    assert_eq!(
        resolve_macos_config(Some(&config), Some(&source), Some("com.default".to_string())),
        Some(MacosConfig {
            sound: Some("Ping".to_string()),
            app_bundle_id: Some("com.source".to_string()),
            icon: Some(PathBuf::from("/i.png")),
        })
    );
    assert_eq!(
        resolve_macos_config(None, Some(&source), None),
        Some(MacosConfig { app_bundle_id: Some("com.source".to_string()), ..Default::default() })
    );
    assert_eq!(resolve_macos_config(Some(&config), None, None), config.macos);
    assert_eq!(
        resolve_macos_config(Some(&config), None, Some("com.default".to_string())),
        config.macos
    );
}

#[test]
fn default_bundle_fills_a_missing_bundle() {
    let config = Config {
        macos: Some(MacosConfig { sound: Some("Ping".to_string()), ..Default::default() }),
        ..Config::default()
    };
    assert_eq!(
        resolve_macos_config(Some(&config), None, Some("com.wakedev.codex".to_string())),
        Some(MacosConfig {
            sound: Some("Ping".to_string()),
            app_bundle_id: Some("com.wakedev.codex".to_string()),
            icon: None,
        })
    );
    assert_eq!(
        resolve_macos_config(None, None, Some("com.wakedev.codex".to_string())),
        Some(MacosConfig {
            app_bundle_id: Some("com.wakedev.codex".to_string()),
            ..Default::default()
        })
    );
    assert_eq!(resolve_macos_config(None, None, None), None);
    assert_eq!(resolve_macos_config(Some(&config), Some(&SourceConfig::default()), None), config.macos);
}

#[test]
fn default_bundle_is_needed_only_where_none_is_named() {
    let named = Config {
        macos: Some(MacosConfig { app_bundle_id: Some("x".to_string()), ..Default::default() }),
        ..Config::default()
    };
    let source = SourceConfig { app_bundle_id: Some("y".to_string()), ..Default::default() };
    let known = bundled();
    assert!(needs_default_bundle(None, None, Some("codex"), &known).is_some());
    assert!(needs_default_bundle(Some(&Config::default()), None, Some("agent"), &known).is_some());
    assert!(needs_default_bundle(Some(&named), None, Some("codex"), &known).is_none());
    assert!(needs_default_bundle(None, Some(&source), Some("codex"), &known).is_none());
    assert!(needs_default_bundle(None, None, Some("other"), &known).is_none());
    assert!(needs_default_bundle(None, None, Some("codex"), &[]).is_none());
    assert!(needs_default_bundle(None, None, None, &known).is_none());
}

#[test]
fn background_without_click_command_always_fails() {
    for provider in [None, Some("macos"), Some("remote"), Some("nope")] {
        for local in [false, true] {
            let mut args = send_args("m");
            args.background = true;
            args.provider = provider.map(|p| p.to_string());
            let config = forwarding("h", 9);
            assert_eq!(
                handle_send(Some(&config), args, None, platform(local)),
                Err(NotifallError::BackgroundRequiresOnClick)
            );
        }
    }
    let mut args = send_args("m");
    args.background = true;
    assert_eq!(
        handle_send(None, args, Some(context()), platform(false)),
        Err(NotifallError::BackgroundRequiresOnClick)
    );
    let mut args = send_args("m");
    args.background = true;
    assert_eq!(
        plan_send("macos", None, None, args, None, platform(true)),
        Err(NotifallError::BackgroundRequiresOnClick)
    );
    assert_eq!(
        deliver_macos(Notification::default(), None, None, true, true, true, None),
        Err(NotifallError::BackgroundRequiresOnClick)
    );
    assert_eq!(
        NotifallError::BackgroundRequiresOnClick.message(),
        "--background requires --on-click"
    );
}

#[test]
fn send_without_any_provider_fails() {
    let r = handle_send(None, send_args("m"), None, platform(false));
    assert_eq!(r, Err(NotifallError::NoProviderAvailable));
    assert_eq!(
        NotifallError::NoProviderAvailable.message(),
        "no provider available for this platform"
    );
}

#[test]
fn unknown_provider_is_unsupported() {
    let mut args = send_args("m");
    args.provider = Some("Telegram".to_string());
    let r = handle_send(None, args, None, platform(true));
    assert_eq!(r, Err(NotifallError::ProviderUnsupported("telegram".to_string())));
    assert_eq!(r.unwrap_err().message(), "unsupported provider: telegram");
}

#[test]
fn background_send_with_click_command_is_handed_off() {
    let mut args = send_args("build done");
    args.background = true;
    args.on_click = Some("echo done".to_string());
    args.wait_for_click = true;
    let plan = handle_send(None, args, Some(context()), platform(true)).unwrap();
    let local = match plan {
        SendPlan::Local(local) => local,
        other => panic!("not a local send: {:?}", other),
    };
    assert_eq!(local.notification.title, "Wakedev");
    assert_eq!(local.notification.message, "build done");
    let expected = Notification {
        title: "Wakedev".to_string(),
        message: "build done".to_string(),
        ..Notification::default()
    };
    assert_eq!(local.notification, expected);
    let delivery = local.deliver(None).unwrap();
    assert_eq!(
        delivery,
        Delivery::Handoff {
            payload: WaitPayload {
                notification: expected,
                macos: None,
                on_click: Some("echo done".to_string()),
                context: Some(context()),
            },
            json: false,
        }
    );
}

#[test]
fn local_send_builds_the_notification_from_its_arguments() {
    let source = SourceConfig {
        icon: Some(PathBuf::from("/s.icns")),
        app_bundle_id: None,
        display_name: Some("Codex CLI".to_string()),
    };
    let config =
        Config { sources: Some(vec![("codex".to_string(), source)]), ..Config::default() };
    let mut args = send_args("m");
    args.source = Some("CODEX".to_string());
    args.link = Some("https://x".to_string());
    args.sound = Some("Ping".to_string());
    args.urgency = Some(UrgencyArg::High);
    args.tag = Some("ci".to_string());
    args.json = true;
    let mut p = platform(true);
    p.allow_image_icons = true;
    let plan = handle_send(Some(&config), args, None, p).unwrap();
    assert_eq!(
        plan,
        SendPlan::Local(LocalSend {
            notification: Notification {
                title: "Codex CLI".to_string(),
                message: "m".to_string(),
                source: Some("codex".to_string()),
                icon: Some(PathBuf::from("/s.icns")),
                link: Some("https://x".to_string()),
                sound: Some("Ping".to_string()),
                urgency: Some(Urgency::High),
                tag: Some("ci".to_string()),
                ..Notification::default()
            },
            on_click: None,
            background: false,
            wait_for_click: false,
            json: true,
            context: None,
        })
    );
}

#[test]
fn icons_are_dropped_unless_allowed_and_wanted() {
    let mut args = send_args("m");
    args.icon = Some(PathBuf::from("/c.png"));
    let plan = plan_send("macos", None, None, args, None, platform(true)).unwrap();
    match plan {
        SendPlan::Local(local) => assert_eq!(local.notification.icon, None),
        other => panic!("not a local send: {:?}", other),
    }
    let mut args = send_args("m");
    args.icon = Some(PathBuf::from("/c.png"));
    args.no_icon = true;
    let mut p = platform(true);
    p.allow_image_icons = true;
    match plan_send("macos", None, None, args, None, p).unwrap() {
        SendPlan::Local(local) => assert_eq!(local.notification.icon, None),
        other => panic!("not a local send: {:?}", other),
    }
    let mut args = send_args("m");
    args.icon = Some(PathBuf::from("/c.png"));
    let mut p = platform(true);
    p.allow_image_icons = true;
    match plan_send("macos", None, None, args, None, p).unwrap() {
        SendPlan::Local(local) => assert_eq!(local.notification.icon, Some(PathBuf::from("/c.png"))),
        other => panic!("not a local send: {:?}", other),
    }
}

#[test]
fn silent_send_has_the_sound_none() {
    let mut args = send_args("m");
    args.silent = true;
    args.sound = Some("Ping".to_string());
    match plan_send("macos", None, None, args, None, platform(true)).unwrap() {
        SendPlan::Local(local) => assert_eq!(local.notification.sound, Some("none".to_string())),
        other => panic!("not a local send: {:?}", other),
    }
}

#[test]
fn remote_send_strips_the_icon_from_the_envelope_only() {
    let mut args = send_args("m");
    args.icon = Some(PathBuf::from("/c.png"));
    args.title = Some("T".to_string());
    let mut p = platform(true);
    p.allow_image_icons = true;
    let config = forwarding("h", 9);
    let plan = handle_send(Some(&config), args, Some(context()), p).unwrap();
    let send = match plan {
        SendPlan::Remote(send) => send,
        other => panic!("not a remote send: {:?}", other),
    };
    assert_eq!(send.target.url, "http://h:9/notify");
    assert_eq!(send.token, None);
    assert_eq!(send.timeout_ms, 2000);
    assert_eq!(send.retries, 2);
    assert!(send.fallback);
    assert_eq!(send.envelope.notification.icon, None);
    assert_eq!(send.envelope.notification.title, "T");
    assert_eq!(send.envelope.notification.message, "m");
    assert_eq!(
        send.envelope.context,
        Some(RemoteContext { origin_host: Some("here".to_string()) })
    );
    assert_eq!(send.local.notification.icon, Some(PathBuf::from("/c.png")));
    assert_eq!(send.local.context, Some(context()));
    let mut without_icon = send.local.notification.clone();
    without_icon.icon = None;
    assert_eq!(send.envelope.notification, without_icon);
}

#[test]
fn remote_settings_come_from_command_line_then_configuration() {
    let mut config = forwarding("h", 9);
    {
        let remote = config.remote.as_mut().unwrap();
        remote.token = Some("cfg".to_string());
        remote.timeout_ms = Some(10);
        remote.retries = Some(0);
        remote.fallback_to_local = Some(false);
    }
    let plan = handle_send(Some(&config), send_args("m"), None, platform(true)).unwrap();
    match plan {
        SendPlan::Remote(send) => {
            assert_eq!(send.token, Some("cfg".to_string()));
            assert_eq!(send.timeout_ms, 10);
            assert_eq!(send.retries, 0);
            assert!(!send.fallback);
        },
        other => panic!("not a remote send: {:?}", other),
    }
    let mut args = send_args("m");
    args.remote_host = Some("cli".to_string());
    args.remote_token = Some("tok".to_string());
    args.remote_timeout_ms = Some(1);
    args.remote_retries = Some(7);
    config.remote.as_mut().unwrap().fallback_to_local = Some(true);
    args.no_fallback = true;
    match handle_send(Some(&config), args, None, platform(true)).unwrap() {
        SendPlan::Remote(send) => {
            assert_eq!(send.target.url, "http://cli:9/notify");
            assert_eq!(send.token, Some("tok".to_string()));
            assert_eq!(send.timeout_ms, 1);
            assert_eq!(send.retries, 7);
            assert!(!send.fallback);
        },
        other => panic!("not a remote send: {:?}", other),
    }
}

#[test]
fn remote_send_without_endpoint_is_a_configuration_error() {
    let mut args = send_args("m");
    args.provider = Some("remote".to_string());
    let r = handle_send(None, args, None, platform(true));
    assert_eq!(
        r,
        Err(NotifallError::Provider(ProviderError::Message(
            "remote host is not configured".to_string()
        )))
    );
}

fn remote_send(no_fallback: bool, retries: u32) -> wakedev::delivery::RemoteSend {
    let mut args = send_args("m");
    args.no_fallback = no_fallback;
    args.remote_retries = Some(retries);
    args.json = true;
    let config = forwarding("h", 9);
    match handle_send(Some(&config), args, None, platform(true)).unwrap() {
        SendPlan::Remote(send) => send,
        other => panic!("not a remote send: {:?}", other),
    }
}

#[test]
fn unreachable_host_without_fallback_reports_the_remote_error() {
    let mut send = remote_send(true, 2);
    let mut state = send.begin();
    let mut requests = 0;
    let error = loop {
        requests += 1;
        let result = AttemptResult::Transport("Connection refused".to_string());
        match send.conclude(state, result, true) {
            Conclusion::Request(next, same) => {
                state = next;
                send = same;
            },
            Conclusion::Failed(error) => break error,
            other => panic!("unexpected: {:?}", other),
        }
    };
    assert_eq!(requests, 3);
    assert_eq!(
        error,
        NotifallError::Provider(ProviderError::Message(
            "remote error: Connection refused".to_string()
        ))
    );
    assert!(error.message().contains("remote error"));
}

#[test]
fn unreachable_host_with_fallback_is_delivered_locally() {
    let send = remote_send(false, 0);
    let local = send.local.clone();
    let state = send.begin();
    let result = AttemptResult::Transport("Connection refused".to_string());
    match send.conclude(state, result, true) {
        Conclusion::Fallback(fallback) => assert_eq!(fallback, local),
        other => panic!("unexpected: {:?}", other),
    }
}

#[test]
fn fallback_needs_a_local_provider() {
    let send = remote_send(false, 0);
    let state = send.begin();
    match send.conclude(state, AttemptResult::Status(500), false) {
        Conclusion::Failed(error) => assert_eq!(
            error,
            NotifallError::Provider(ProviderError::Message(
                "remote error: status 500".to_string()
            ))
        ),
        other => panic!("unexpected: {:?}", other),
    }
}

#[test]
fn fallback_waits_for_the_budget_to_run_out() {
    let send = remote_send(false, 1);
    let state = send.begin();
    match send.conclude(state, AttemptResult::Status(500), true) {
        Conclusion::Request(next, _) => assert_eq!(next, RelayState { retries: 1, answered: 1 }),
        other => panic!("unexpected: {:?}", other),
    }
}

#[test]
fn accepted_send_is_delivered() {
    let send = remote_send(false, 1);
    let state = send.begin();
    match send.conclude(state, AttemptResult::Status(200), true) {
        Conclusion::Delivered { json } => assert!(json),
        other => panic!("unexpected: {:?}", other),
    }
}

#[test]
fn direct_delivery_waits_when_asked_or_when_there_is_a_click_command() {
    let n = Notification::default();
    for (wait, on_click, expected) in [
        (false, None, false),
        (true, None, true),
        (false, Some("c".to_string()), true),
        (true, Some("c".to_string()), true),
    ] {
        let d = deliver_macos(n.clone(), None, on_click.clone(), false, wait, true, None);
        assert_eq!(
            d,
            Ok(Delivery::Direct {
                notification: n.clone(),
                macos: None,
                options: SendOptions { wait_for_click: expected },
                on_click,
                context: None,
                json: true,
            })
        );
    }
}

#[test]
fn click_command_fires_on_click_and_button_only() {
    let n = Notification::default();
    for outcome in [
        None,
        Some(DeliveryOutcome::Delivered),
        Some(DeliveryOutcome::Closed("x".to_string())),
        Some(DeliveryOutcome::Replied("x".to_string())),
    ] {
        assert_eq!(handle_click(outcome, Some("cmd"), &n, None, None), None);
    }
    for outcome in [DeliveryOutcome::Clicked, DeliveryOutcome::ActionButton("Open".to_string())] {
        assert!(handle_click(Some(outcome.clone()), Some("cmd"), &n, None, None).is_some());
        assert_eq!(handle_click(Some(outcome), None, &n, None, None), None);
    }
}

#[test]
fn click_command_gets_the_whole_environment() {
    let n = Notification {
        title: "T".to_string(),
        message: "M".to_string(),
        source: Some("codex".to_string()),
        tag: Some("ci".to_string()),
        ..Notification::default()
    };
    let c = context();
    let json = Some("{\"tmux\":null}".to_string());
    let click =
        handle_click(Some(DeliveryOutcome::Clicked), Some("wakedev focus"), &n, Some(&c), json)
            .unwrap();
    assert_eq!(click.command, "wakedev focus");
    assert_eq!(
        click.env,
        vec![
            pair("WAKEDEV_SOURCE", "codex"),
            pair("WAKEDEV_TITLE", "T"),
            pair("WAKEDEV_MESSAGE", "M"),
            pair("WAKEDEV_TAG", "ci"),
            pair("WAKEDEV_TMUX_SESSION", "$1"),
            pair("WAKEDEV_TMUX_WINDOW", "@2"),
            pair("WAKEDEV_TMUX_PANE", "%3"),
            pair("WAKEDEV_TMUX_CLIENT", "/dev/ttys004"),
            pair("WAKEDEV_TERMINAL_APP", "ghostty"),
            pair("WAKEDEV_CONTEXT_JSON", "{\"tmux\":null}"),
        ]
    );
}

#[test]
fn click_command_without_context_gets_title_and_message() {
    let n = Notification { title: "T".to_string(), message: "M".to_string(), ..Default::default() };
    let click = handle_click(
        Some(DeliveryOutcome::Clicked),
        Some("c"),
        &n,
        None,
        Some("ignored".to_string()),
    )
    .unwrap();
    assert_eq!(click.env, vec![pair("WAKEDEV_TITLE", "T"), pair("WAKEDEV_MESSAGE", "M")]);
    let bare = Context { tmux: None, terminal: Some(TerminalContext { app: None }) };
    let click =
        handle_click(Some(DeliveryOutcome::Clicked), Some("c"), &n, Some(&bare), None).unwrap();
    assert_eq!(click.env, vec![pair("WAKEDEV_TITLE", "T"), pair("WAKEDEV_MESSAGE", "M")]);
}

#[test]
fn report_names_each_outcome() {
    let r = print_send_output("macos", None, true, Some("/tmp/p.json".to_string()));
    assert_eq!(r.provider, "macos");
    assert!(r.background);
    assert_eq!(r.outcome, ReportedOutcome::Null);
    assert_eq!(r.payload, Some("/tmp/p.json".to_string()));
    let r = print_send_output("remote", Some(DeliveryOutcome::Delivered), false, None);
    assert_eq!(r.outcome, ReportedOutcome::Word("delivered"));
    let r = print_send_output("macos", Some(DeliveryOutcome::Clicked), false, None);
    assert_eq!(r.outcome, ReportedOutcome::Word("clicked"));
    let r = print_send_output("macos", Some(DeliveryOutcome::ActionButton("A".into())), false, None);
    assert_eq!(
        r.outcome,
        ReportedOutcome::Tagged { kind: "action", field: "label", value: "A".to_string() }
    );
    let r = print_send_output("macos", Some(DeliveryOutcome::Closed("C".into())), false, None);
    assert_eq!(
        r.outcome,
        ReportedOutcome::Tagged { kind: "closed", field: "label", value: "C".to_string() }
    );
    let r = print_send_output("macos", Some(DeliveryOutcome::Replied("R".into())), false, None);
    assert_eq!(
        r.outcome,
        ReportedOutcome::Tagged { kind: "reply", field: "text", value: "R".to_string() }
    );
}

#[test]
fn ping_goes_to_the_ping_path_once() {
    let args = RemotePingArgs {
        remote_host: Some("h".to_string()),
        remote_port: Some(9),
        remote_token: None,
    };
    let cfg = RemoteConfig { token: Some("cfg".to_string()), ..RemoteConfig::default() };
    let plan = handle_remote_ping(args, Some(&cfg)).unwrap();
    assert_eq!(plan.url, "http://h:9/ping");
    assert_eq!(plan.token, Some("cfg".to_string()));
    assert_eq!(plan.timeout_ms, 2000);
}

#[test]
fn ping_without_endpoint_is_a_configuration_error() {
    let args = RemotePingArgs { remote_host: None, remote_port: Some(9), remote_token: None };
    assert_eq!(
        handle_remote_ping(args, None),
        Err(NotifallError::Provider(ProviderError::Message(
            "remote host is not configured".to_string()
        )))
    );
}

#[test]
fn small_texts_are_put_together() {
    assert_eq!(
        ping_error("timed out"),
        NotifallError::Provider(ProviderError::Message(
            "remote ping failed: timed out".to_string()
        ))
    );
    assert_eq!(bearer("tok"), "Bearer tok");
    assert_eq!(default_focus_command("/usr/bin/wakedev"), "/usr/bin/wakedev focus");
    assert_eq!(handle_providers_list(true), vec!["remote", "macos"]);
    assert_eq!(
        handle_providers_list(false),
        vec!["remote", "(no providers available on this platform yet)"]
    );
    assert!(allow_image_icons(Some("1")));
    assert!(!allow_image_icons(Some("0")));
    assert!(!allow_image_icons(Some("true")));
    assert!(!allow_image_icons(None));
}
