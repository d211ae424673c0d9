use wakedev::cli::ListenArgs;
use wakedev::config::ListenerConfig;
use wakedev::delivery::Delivery;
use wakedev::listener::{
    accept_body, extract_token, handle_request, receive, screen_request, Header, InboundBody,
    InboundRequest, ListenerSettings, Method, Reply,
};
use wakedev::notification::Notification;
use wakedev::payload::WaitPayload;
use wakedev::provider::SendOptions;
use wakedev::remote::{RemoteContext, RemoteEnvelope};
use std::path::PathBuf;

fn settings() -> ListenerSettings {
    ListenerSettings {
        bind: "0.0.0.0".to_string(),
        port: 4280,
        token: None,
        require_token: false,
        prefix_hostname: true,
        allow_hosts: Vec::new(),
        on_click: None,
    }
}

fn header(field: &str, value: &str) -> Header {
    Header { field: field.to_string(), value: value.to_string() }
}

fn post(url: &str, peer: Option<&str>, headers: Vec<Header>) -> InboundRequest {
    InboundRequest {
        method: Method::Post,
        url: url.to_string(),
        peer: peer.map(|p| p.to_string()),
        headers,
    }
}

fn envelope(title: &str, origin: Option<&str>) -> RemoteEnvelope {
    RemoteEnvelope {
        notification: Notification {
            title: title.to_string(),
            message: "m".to_string(),
            icon: Some(PathBuf::from("/tmp/evil.png")),
            tag: Some("t".to_string()),
            ..Notification::default()
        },
        context: Some(RemoteContext { origin_host: origin.map(|o| o.to_string()) }),
    }
}

fn no_args() -> ListenArgs {
    ListenArgs {
        bind: None,
        port: None,
        token: None,
        require_token: false,
        prefix_hostname: false,
        allow_host: Vec::new(),
        on_click: None,
        no_click: false,
    }
}

#[test]
fn replies_have_their_status_and_body() {
    assert_eq!(Reply::Accepted.status(), 200);
    assert_eq!(Reply::Accepted.body(), "{\"status\":\"ok\"}");
    assert_eq!(Reply::InvalidJson.status(), 400);
    assert_eq!(Reply::InvalidJson.body(), "{\"error\":\"invalid json\"}");
    assert_eq!(Reply::InvalidBody.status(), 400);
    assert_eq!(Reply::InvalidBody.body(), "{\"error\":\"invalid body\"}");
    assert_eq!(Reply::Unauthorized.status(), 401);
    assert_eq!(Reply::Unauthorized.body(), "{\"error\":\"unauthorized\"}");
    assert_eq!(Reply::Forbidden.status(), 403);
    assert_eq!(Reply::Forbidden.body(), "{\"error\":\"forbidden\"}");
    assert_eq!(Reply::NotFound.status(), 404);
    assert_eq!(Reply::NotFound.body(), "{\"error\":\"not found\"}");
    assert_eq!(Reply::MethodNotAllowed.status(), 405);
    assert_eq!(Reply::MethodNotAllowed.body(), "{\"error\":\"method not allowed\"}");
}

#[test]
fn ping_is_answered_without_a_token() {
    let mut s = settings();
    s.require_token = true;
    s.token = Some("secret".to_string());
    s.allow_hosts = vec!["127.0.0.1".to_string()];
    let request = InboundRequest {
        method: Method::Get,
        url: "/ping?x=1".to_string(),
        peer: Some("10.0.0.1".to_string()),
        headers: Vec::new(),
    };
    assert_eq!(screen_request(&s, &request), Some(Reply::Accepted));
}

#[test]
fn ping_takes_get_only() {
    let request = post("/ping", None, Vec::new());
    assert_eq!(screen_request(&settings(), &request), Some(Reply::MethodNotAllowed));
}

#[test]
fn unknown_path_is_not_found() {
    assert_eq!(screen_request(&settings(), &post("/", None, Vec::new())), Some(Reply::NotFound));
    assert_eq!(
        screen_request(&settings(), &post("/notify/x", None, Vec::new())),
        Some(Reply::NotFound)
    );
    assert_eq!(
        screen_request(&settings(), &post("?/notify", None, Vec::new())),
        Some(Reply::NotFound)
    );
}

#[test]
fn notify_takes_post_only() {
    let request = InboundRequest {
        method: Method::Get,
        url: "/notify".to_string(),
        peer: None,
        headers: Vec::new(),
    };
    assert_eq!(screen_request(&settings(), &request), Some(Reply::MethodNotAllowed));
    let request = InboundRequest { method: Method::Other, ..request };
    assert_eq!(screen_request(&settings(), &request), Some(Reply::MethodNotAllowed));
}

#[test]
fn unlisted_peer_is_forbidden_before_token_and_body() {
    let mut s = settings();
    s.allow_hosts = vec!["127.0.0.1".to_string()];
    s.require_token = true;
    s.token = Some("secret".to_string());
    let request = post("/notify", Some("10.1.2.3"), Vec::new());
    let action = handle_request(&s, &request, InboundBody::Malformed);
    assert_eq!(action.reply, Reply::Forbidden);
    assert_eq!(action.reply.status(), 403);
    assert_eq!(action.dispatch, None);
    let good = vec![header("Authorization", "Bearer secret")];
    let request = post("/notify", Some("127.0.0.2"), good);
    let action = handle_request(&s, &request, InboundBody::Envelope(envelope("t", None)));
    assert_eq!(action.reply, Reply::Forbidden);
    assert_eq!(action.dispatch, None);
}

#[test]
fn listed_or_unknown_peer_passes_the_allow_list() {
    let mut s = settings();
    s.allow_hosts = vec!["10.0.0.9".to_string(), "127.0.0.1".to_string()];
    assert_eq!(screen_request(&s, &post("/notify", Some("127.0.0.1"), Vec::new())), None);
    assert_eq!(screen_request(&s, &post("/notify", None, Vec::new())), None);
}

#[test]
fn missing_or_wrong_token_is_unauthorized() {
    let mut s = settings();
    s.require_token = true;
    s.token = Some("secret".to_string());
    for headers in [
        Vec::new(),
        vec![header("Authorization", "Bearer wrong")],
        vec![header("Authorization", "secret")],
        vec![header("Authorization", "bearer secret")],
        vec![header("X-Wakedev-Token", "Secret")],
        vec![header("X-Wakedev-Token", "wrong"), header("Authorization", "Bearer secret")],
    ] {
        let request = post("/notify", Some("127.0.0.1"), headers);
        let action = handle_request(&s, &request, InboundBody::Envelope(envelope("t", None)));
        assert_eq!(action.reply, Reply::Unauthorized);
        assert_eq!(action.reply.status(), 401);
        assert_eq!(action.dispatch, None);
    }
}

#[test]
fn required_token_without_configured_token_rejects_all() {
    let mut s = settings();
    s.require_token = true;
    s.token = None;
    let request = post("/notify", None, Vec::new());
    assert_eq!(screen_request(&s, &request), Some(Reply::Unauthorized));
    let request = post("/notify", None, vec![header("Authorization", "Bearer ")]);
    assert_eq!(screen_request(&s, &request), Some(Reply::Unauthorized));
}

#[test]
fn right_token_is_let_in() {
    let mut s = settings();
    s.require_token = true;
    s.token = Some("secret".to_string());
    for headers in [
        vec![header("authorization", "Bearer secret")],
        vec![header("AUTHORIZATION", "Bearer secret")],
        vec![header("x-wakedev-token", "secret")],
        vec![header("Authorization", "Basic abc"), header("X-WAKEDEV-TOKEN", "secret")],
    ] {
        assert_eq!(screen_request(&s, &post("/notify?a", None, headers)), None);
    }
}

#[test]
fn token_is_not_asked_for_unless_required() {
    let mut s = settings();
    s.token = Some("secret".to_string());
    assert_eq!(screen_request(&s, &post("/notify", None, Vec::new())), None);
}

#[test]
fn token_comes_from_the_first_header_that_has_one() {
    assert_eq!(extract_token(&[]), None);
    assert_eq!(extract_token(&[header("Accept", "x")]), None);
    assert_eq!(
        extract_token(&[header("Authorization", "Bearer a b")]),
        Some("a b".to_string())
    );
    assert_eq!(extract_token(&[header("Authorization", "Bearer ")]), Some("".to_string()));
    assert_eq!(
        extract_token(&[header("Authorization", "Basic x"), header("X-Wakedev-Token", "t")]),
        Some("t".to_string())
    );
    assert_eq!(
        extract_token(&[header("X-Wakedev-Token", "first"), header("Authorization", "Bearer second")]),
        Some("first".to_string())
    );
}

#[test]
fn bad_bodies_are_refused() {
    let request = post("/notify", None, Vec::new());
    let action = handle_request(&settings(), &request, InboundBody::Unreadable);
    assert_eq!((action.reply, action.dispatch), (Reply::InvalidBody, None));
    let action = handle_request(&settings(), &request, InboundBody::Malformed);
    assert_eq!((action.reply, action.dispatch), (Reply::InvalidJson, None));
    let action = accept_body(&settings(), InboundBody::Malformed);
    assert_eq!(action.reply.status(), 400);
}

#[test]
fn accepted_notification_loses_its_icon_and_gains_the_origin() {
    let request = post("/notify", None, Vec::new());
    let body = InboundBody::Envelope(envelope("build done", Some("mba")));
    let action = handle_request(&settings(), &request, body);
    assert_eq!(action.reply, Reply::Accepted);
    let shown = action.dispatch.unwrap();
    assert_eq!(shown.icon, None);
    assert_eq!(shown.title, "build done [mba]");
    assert_eq!(shown.message, "m");
    assert_eq!(shown.tag, Some("t".to_string()));
}

#[test]
fn origin_is_not_suffixed_twice() {
    let shown = receive(envelope("build done [mba]", Some("mba")), true);
    assert_eq!(shown.title, "build done [mba]");
    let shown = receive(envelope("build done [mba] ", Some("mba")), true);
    assert_eq!(shown.title, "build done [mba]  [mba]");
}

#[test]
fn blank_title_gets_the_default() {
    assert_eq!(receive(envelope("", None), true).title, "Notification");
    assert_eq!(receive(envelope(" \t\n\u{3000}", None), false).title, "Notification");
    assert_eq!(receive(envelope("", Some("h")), true).title, "Notification [h]");
    assert_eq!(receive(envelope("", Some("h")), false).title, "Notification");
    assert_eq!(receive(envelope(" x ", None), true).title, " x ");
    assert_eq!(receive(envelope("\u{200b}", None), true).title, "\u{200b}");
}

#[test]
fn envelope_without_context_keeps_its_title() {
    let mut e = envelope("t", None);
    e.context = None;
    assert_eq!(receive(e, true).title, "t");
}

#[test]
fn settings_fall_back_to_defaults() {
    let s = ListenerSettings::resolve(no_args(), None, Some("/bin/wakedev focus".to_string()));
    assert_eq!(s.bind, "0.0.0.0");
    assert_eq!(s.port, 4280);
    assert_eq!(s.token, None);
    assert!(!s.require_token);
    assert!(s.prefix_hostname);
    assert!(s.allow_hosts.is_empty());
    assert_eq!(s.on_click, Some("/bin/wakedev focus".to_string()));
    assert_eq!(s.address(), "0.0.0.0:4280");
}

#[test]
fn command_line_wins_over_configuration() {
    let config = ListenerConfig {
        bind: Some("127.0.0.1".to_string()),
        port: Some(1),
        token: Some("cfg".to_string()),
        require_token: Some(false),
        prefix_hostname: Some(false),
        allow_hosts: Some(vec!["a".to_string()]),
        on_click: Some("cfg-click".to_string()),
    };
    let args = ListenArgs {
        bind: Some("::".to_string()),
        port: Some(65535),
        token: Some("cli".to_string()),
        require_token: true,
        prefix_hostname: true,
        allow_host: vec!["b".to_string(), "c".to_string()],
        on_click: Some("cli-click".to_string()),
        no_click: false,
    };
    let s = ListenerSettings::resolve(args, Some(config), Some("default".to_string()));
    assert_eq!(s.address(), ":::65535");
    assert_eq!(s.token, Some("cli".to_string()));
    assert!(s.require_token);
    assert!(s.prefix_hostname);
    assert_eq!(s.allow_hosts, vec!["b".to_string(), "c".to_string()]);
    assert_eq!(s.on_click, Some("cli-click".to_string()));
}

#[test]
fn configuration_fills_what_the_command_line_leaves() {
    let config = ListenerConfig {
        bind: Some("127.0.0.1".to_string()),
        port: Some(1),
        token: Some("cfg".to_string()),
        require_token: None,
        prefix_hostname: Some(false),
        allow_hosts: Some(vec!["a".to_string()]),
        on_click: Some("cfg-click".to_string()),
    };
    let s = ListenerSettings::resolve(no_args(), Some(config), None);
    assert_eq!(s.address(), "127.0.0.1:1");
    assert_eq!(s.token, Some("cfg".to_string()));
    assert!(s.require_token);
    assert!(!s.prefix_hostname);
    assert_eq!(s.allow_hosts, vec!["a".to_string()]);
    assert_eq!(s.on_click, Some("cfg-click".to_string()));
}

#[test]
fn no_click_switches_the_click_command_off() {
    let mut args = no_args();
    args.no_click = true;
    args.on_click = Some("x".to_string());
    let s = ListenerSettings::resolve(args, None, Some("default".to_string()));
    assert_eq!(s.on_click, None);
}

#[test]
fn received_notification_is_handed_off_when_there_is_a_click_command() {
    let mut s = settings();
    s.on_click = Some("focus".to_string());
    let n = Notification { title: "t".to_string(), ..Notification::default() };
    let d = s.delivery(n.clone(), None, None);
    assert_eq!(
        d,
        Delivery::Handoff {
            payload: WaitPayload {
                notification: n.clone(),
                macos: None,
                on_click: Some("focus".to_string()),
                context: None,
            },
            json: false,
        }
    );
    let d = settings().delivery(n.clone(), None, None);
    assert_eq!(
        d,
        Delivery::Direct {
            notification: n,
            macos: None,
            options: SendOptions { wait_for_click: false },
            on_click: None,
            context: None,
            json: false,
        }
    );
}
