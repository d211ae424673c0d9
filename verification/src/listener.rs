//! The inbound side of the relay: what a listener answers to a request, and
//! what it shows.
//!
//! The accept loop itself lives with the HTTP server. For each request it
//! hands over the plain facts of the request and gets back the reply to
//! send and, if there is one, the notification to show.

use crate::cli::ListenArgs;
use crate::config::{ListenerConfig, MacosConfig};
use crate::context::Context;
use crate::delivery::Delivery;
use crate::notification::clone_opt;
use crate::payload::WaitPayload;
use crate::provider::SendOptions;
use crate::notification::{Notification, NotificationView};
use crate::remote::RemoteEnvelope;
use crate::text::{
    append_decimal, append_str, blank, chars_of, decimal, ends_with, eq_fold,
    eq_ignore_ascii_case, find_char, index_of, is_blank, same_chars, starts_with, string_of,
    sub_chars,
};
use vstd::prelude::*;

verus! {

/// How a listener is set up, once the command line and the configuration
/// have been merged.
#[derive(Debug, Clone, PartialEq)]
pub struct ListenerSettings {
    pub bind: String,
    pub port: u16,
    pub token: Option<String>,
    pub require_token: bool,
    pub prefix_hostname: bool,
    pub allow_hosts: Vec<String>,
    pub on_click: Option<String>,
}

/// The first of two optional values that is there.
pub open spec fn first_of<T>(a: Option<T>, b: Option<T>) -> Option<T> {
    if a is Some {
        a
    } else {
        b
    }
}

fn either<T>(a: Option<T>, b: Option<T>) -> (r: Option<T>)
    ensures
        r == first_of(a, b),
{
    match a {
        Some(v) => Some(v),
        None => b,
    }
}

impl ListenerSettings {
    /// The address to bind to, as text.
    pub open spec fn bind_text(args: ListenArgs, config: Option<ListenerConfig>) -> Seq<char> {
        let from_config = match config {
            Some(c) => c.bind,
            None => None,
        };
        match first_of(args.bind, from_config) {
            Some(b) => b@,
            None => "0.0.0.0"@,
        }
    }

    /// The settings that [`ListenerSettings::resolve`] returns, but for the
    /// bind address.
    pub open spec fn resolved(
        self,
        args: ListenArgs,
        config: Option<ListenerConfig>,
        default_on_click: Option<String>,
    ) -> bool {
        let c = match config {
            Some(c) => c,
            None => ListenerConfig {
                bind: None,
                port: None,
                token: None,
                require_token: None,
                prefix_hostname: None,
                allow_hosts: None,
                on_click: None,
            },
        };
        let token = first_of(args.token, c.token);
        &&& self.bind@ == Self::bind_text(args, config)
        &&& self.port == match first_of(args.port, c.port) {
            Some(p) => p,
            None => 4280u16,
        }
        &&& self.token == token
        &&& self.require_token == (args.require_token || match c.require_token {
            Some(r) => r,
            None => token is Some,
        })
        &&& self.prefix_hostname == (args.prefix_hostname || match c.prefix_hostname {
            Some(p) => p,
            None => true,
        })
        &&& self.allow_hosts@ == (if args.allow_host@.len() > 0 {
            args.allow_host@
        } else {
            match c.allow_hosts {
                Some(h) => h@,
                None => Seq::<String>::empty(),
            }
        })
        &&& self.on_click == (if args.no_click {
            None
        } else {
            first_of(first_of(args.on_click, c.on_click), default_on_click)
        })
    }

    /// Merges the command line over the configuration. What the command
    /// line gives wins; what neither gives falls back to the defaults: all
    /// interfaces, port 4280, a token required exactly when one is set,
    /// host names suffixed, every peer allowed, and `default_on_click` as
    /// the click command unless clicks are switched off.
    pub fn resolve(
        args: ListenArgs,
        config: Option<ListenerConfig>,
        default_on_click: Option<String>,
    ) -> (r: Self)
        ensures
            r.resolved(args, config, default_on_click),
    {
        let c = match config {
            Some(c) => c,
            None => ListenerConfig {
                bind: None,
                port: None,
                token: None,
                require_token: None,
                prefix_hostname: None,
                allow_hosts: None,
                on_click: None,
            },
        };
        let bind = match either(args.bind, c.bind) {
            Some(b) => b,
            None => string_of(chars_of("0.0.0.0").as_slice()),
        };
        let port: u16 = match either(args.port, c.port) {
            Some(p) => p,
            None => 4280,
        };
        let token = either(args.token, c.token);
        let require_token = args.require_token || match c.require_token {
            Some(r) => r,
            None => token.is_some(),
        };
        let prefix_hostname = args.prefix_hostname || match c.prefix_hostname {
            Some(p) => p,
            None => true,
        };
        let allow_hosts = if args.allow_host.len() > 0 {
            args.allow_host
        } else {
            match c.allow_hosts {
                Some(h) => h,
                None => Vec::new(),
            }
        };
        let on_click = if args.no_click {
            None
        } else {
            either(either(args.on_click, c.on_click), default_on_click)
        };
        ListenerSettings { bind, port, token, require_token, prefix_hostname, allow_hosts, on_click }
    }

    /// The socket address to listen on: the bind address, a colon, the port.
    pub fn address(&self) -> (r: String)
        ensures
            r@ == self.bind@ + ":"@ + decimal(self.port as nat),
    {
        let mut out = String::new();
        append_str(&mut out, self.bind.as_str());
        append_str(&mut out, ":");
        append_decimal(&mut out, self.port as u128);
        assert(out@ =~= self.bind@ + ":"@ + decimal(self.port as nat));
        out
    }
}

/// The method of a request, as far as the listener tells methods apart.
#[derive(Debug, Clone, Copy, PartialEq, Eq, Structural)]
pub enum Method {
    Get,
    Post,
    Other,
}

/// One header of a request.
#[derive(Debug, Clone, PartialEq)]
pub struct Header {
    pub field: String,
    pub value: String,
}

/// The facts of a request that the listener decides on. `peer` is the
/// address of the other side, where it is known.
#[derive(Debug, Clone, PartialEq)]
pub struct InboundRequest {
    pub method: Method,
    pub url: String,
    pub peer: Option<String>,
    pub headers: Vec<Header>,
}

/// What came of reading the body of a request.
#[derive(Debug, Clone, PartialEq)]
pub enum InboundBody {
    /// The body could not be read as text.
    Unreadable,
    /// The body is no envelope in JSON.
    Malformed,
    Envelope(RemoteEnvelope),
}

/// The replies of the listener.
#[derive(Debug, Clone, Copy, PartialEq, Eq, Structural)]
pub enum Reply {
    Accepted,
    NotFound,
    MethodNotAllowed,
    Forbidden,
    Unauthorized,
    InvalidBody,
    InvalidJson,
}

impl Reply {
    /// The HTTP status of the reply.
    pub open spec fn status_code(self) -> u16 {
        match self {
            Reply::Accepted => 200,
            Reply::NotFound => 404,
            Reply::MethodNotAllowed => 405,
            Reply::Forbidden => 403,
            Reply::Unauthorized => 401,
            Reply::InvalidBody => 400,
            Reply::InvalidJson => 400,
        }
    }

    /// The JSON body of the reply.
    pub open spec fn body_text(self) -> Seq<char> {
        match self {
            Reply::Accepted => "{\"status\":\"ok\"}"@,
            Reply::NotFound => "{\"error\":\"not found\"}"@,
            Reply::MethodNotAllowed => "{\"error\":\"method not allowed\"}"@,
            Reply::Forbidden => "{\"error\":\"forbidden\"}"@,
            Reply::Unauthorized => "{\"error\":\"unauthorized\"}"@,
            Reply::InvalidBody => "{\"error\":\"invalid body\"}"@,
            Reply::InvalidJson => "{\"error\":\"invalid json\"}"@,
        }
    }

    /// The HTTP status of the reply.
    pub fn status(&self) -> (r: u16)
        ensures
            r == self.status_code(),
    {
        match self {
            Reply::Accepted => 200,
            Reply::NotFound => 404,
            Reply::MethodNotAllowed => 405,
            Reply::Forbidden => 403,
            Reply::Unauthorized => 401,
            Reply::InvalidBody => 400,
            Reply::InvalidJson => 400,
        }
    }

    /// The JSON body of the reply.
    pub fn body(&self) -> (r: &'static str)
        ensures
            r@ == self.body_text(),
    {
        match self {
            Reply::Accepted => "{\"status\":\"ok\"}",
            Reply::NotFound => "{\"error\":\"not found\"}",
            Reply::MethodNotAllowed => "{\"error\":\"method not allowed\"}",
            Reply::Forbidden => "{\"error\":\"forbidden\"}",
            Reply::Unauthorized => "{\"error\":\"unauthorized\"}",
            Reply::InvalidBody => "{\"error\":\"invalid body\"}",
            Reply::InvalidJson => "{\"error\":\"invalid json\"}",
        }
    }
}

/// The path of a request: its URL up to the first question mark.
pub open spec fn path_of(url: Seq<char>) -> Seq<char> {
    url.take(index_of(url, '?'))
}

/// Whether `peer` is one of `hosts`.
pub open spec fn host_listed(hosts: Seq<String>, peer: Seq<char>) -> bool {
    exists|i: int| 0 <= i < hosts.len() && (#[trigger] hosts[i])@ == peer
}

/// Whether the allow-list lets the peer in: there is no list, the peer's
/// address is not known, or the list holds it.
pub open spec fn peer_allowed(hosts: Seq<String>, peer: Option<String>) -> bool {
    hosts.len() == 0 || peer is None || host_listed(hosts, peer->0@)
}

/// The token that one header carries: what follows `Bearer ` in an
/// `Authorization` header, or the value of an `X-Wakedev-Token` header.
/// Header names are compared without regard to ASCII case.
pub open spec fn header_token(field: Seq<char>, value: Seq<char>) -> Option<Seq<char>> {
    if eq_fold(field, "authorization"@) && "Bearer "@.is_prefix_of(value) {
        Some(value.skip("Bearer "@.len() as int))
    } else if eq_fold(field, "x-wakedev-token"@) {
        Some(value)
    } else {
        None
    }
}

/// The token of a request: that of the first header that carries one.
pub open spec fn token_in(headers: Seq<Header>) -> Option<Seq<char>>
    decreases headers.len(),
{
    if headers.len() == 0 {
        None
    } else {
        match header_token(headers[0].field@, headers[0].value@) {
            Some(t) => Some(t),
            None => token_in(headers.drop_first()),
        }
    }
}

/// Whether a request may pass the token check. Where a token is
/// required, the request must carry exactly the configured one; with none
/// configured, no request passes.
pub open spec fn authorized(settings: ListenerSettings, headers: Seq<Header>) -> bool {
    !settings.require_token || (settings.token is Some && token_in(headers) == Some(
        settings.token->0@,
    ))
}

/// The reply that a request gets before its body is looked at, if it gets
/// one: the checks on path, method, peer and token, in that order.
pub open spec fn screened(settings: ListenerSettings, request: InboundRequest) -> Option<Reply> {
    let path = path_of(request.url@);
    if path == "/ping"@ {
        if request.method == Method::Get {
            Some(Reply::Accepted)
        } else {
            Some(Reply::MethodNotAllowed)
        }
    } else if path != "/notify"@ {
        Some(Reply::NotFound)
    } else if request.method != Method::Post {
        Some(Reply::MethodNotAllowed)
    } else if !peer_allowed(settings.allow_hosts@, request.peer) {
        Some(Reply::Forbidden)
    } else if !authorized(settings, request.headers@) {
        Some(Reply::Unauthorized)
    } else {
        None
    }
}

/// The title under which a relayed notification is shown. A blank title
/// becomes `Notification`; where host names are suffixed and the origin is
/// known, ` [origin]` is appended unless the title already ends with it.
pub open spec fn received_title(
    title: Seq<char>,
    origin: Option<Seq<char>>,
    prefix_hostname: bool,
) -> Seq<char> {
    let base = if is_blank(title) {
        "Notification"@
    } else {
        title
    };
    if prefix_hostname && origin is Some {
        let suffix = " ["@ + origin->0 + "]"@;
        if suffix.is_suffix_of(base) {
            base
        } else {
            base + suffix
        }
    } else {
        base
    }
}

/// The host that an envelope names as its origin.
pub open spec fn origin_of(envelope: RemoteEnvelope) -> Option<Seq<char>> {
    match envelope.context {
        Some(c) => c.origin_host.deep_view(),
        None => None,
    }
}

/// The notification that is shown for an envelope: without icon, under
/// its received title, otherwise as it came.
pub open spec fn received(envelope: RemoteEnvelope, prefix_hostname: bool) -> NotificationView {
    NotificationView {
        icon: None,
        title: received_title(envelope.notification@.title, origin_of(envelope), prefix_hostname),
        ..envelope.notification@
    }
}

/// The whole answer to a request: the reply, and the notification to show
/// where the request is accepted.
pub open spec fn answered(
    settings: ListenerSettings,
    request: InboundRequest,
    body: InboundBody,
) -> (Reply, Option<NotificationView>) {
    match screened(settings, request) {
        Some(reply) => (reply, None),
        None => match body {
            InboundBody::Unreadable => (Reply::InvalidBody, None),
            InboundBody::Malformed => (Reply::InvalidJson, None),
            InboundBody::Envelope(e) => (Reply::Accepted, Some(received(e, settings.prefix_hostname))),
        },
    }
}

/// What the listener does with a request.
#[derive(Debug, Clone, PartialEq)]
pub struct ListenerAction {
    pub reply: Reply,
    /// The notification to show before the reply is sent.
    pub dispatch: Option<Notification>,
}

impl ListenerAction {
    /// The action as a reply and the view of what is shown.
    pub open spec fn summary(self) -> (Reply, Option<NotificationView>) {
        (
            self.reply,
            match self.dispatch {
                Some(n) => Some(n@),
                None => None,
            },
        )
    }
}

/// The token that the headers of a request carry.
pub fn extract_token(headers: &[Header]) -> (r: Option<String>)
    ensures
        r.deep_view() == token_in(headers@),
{
    let authorization = chars_of("authorization");
    let custom = chars_of("x-wakedev-token");
    let bearer = chars_of("Bearer ");
    let mut i: usize = 0;
    assert(headers@.skip(0) =~= headers@);
    while i < headers.len()
        invariant
            i <= headers@.len(),
            authorization@ == "authorization"@,
            custom@ == "x-wakedev-token"@,
            bearer@ == "Bearer "@,
            token_in(headers@) == token_in(headers@.skip(i as int)),
        decreases headers.len() - i,
    {
        let field = chars_of(headers[i].field.as_str());
        let value = chars_of(headers[i].value.as_str());
        proof {
            assert(headers@.skip(i as int)[0] == headers@[i as int]);
            assert(headers@.skip(i as int).drop_first() =~= headers@.skip(i + 1));
        }
        if eq_ignore_ascii_case(field.as_slice(), authorization.as_slice()) && starts_with(
            value.as_slice(),
            bearer.as_slice(),
        ) {
            let rest = sub_chars(value.as_slice(), bearer.len(), value.len());
            assert(rest@ =~= value@.skip(bearer@.len() as int));
            return Some(string_of(rest.as_slice()));
        }
        if eq_ignore_ascii_case(field.as_slice(), custom.as_slice()) {
            return Some(string_of(value.as_slice()));
        }
        i += 1;
    }
    assert(headers@.skip(i as int) =~= Seq::<Header>::empty());
    None
}

fn listed(hosts: &[String], peer: &str) -> (r: bool)
    ensures
        r == host_listed(hosts@, peer@),
{
    let mut i: usize = 0;
    while i < hosts.len()
        invariant
            i <= hosts@.len(),
            forall|j: int| 0 <= j < i ==> (#[trigger] hosts@[j])@ != peer@,
        decreases hosts.len() - i,
    {
        if *hosts[i].as_str() == *peer {
            return true;
        }
        i += 1;
    }
    false
}

fn is_authorized(settings: &ListenerSettings, headers: &[Header]) -> (r: bool)
    ensures
        r == authorized(*settings, headers@),
{
    if !settings.require_token {
        return true;
    }
    match &settings.token {
        None => false,
        Some(expected) => match extract_token(headers) {
            None => false,
            Some(incoming) => *incoming.as_str() == *expected.as_str(),
        },
    }
}

/// Checks a request before its body is read. `Some` is the reply that
/// ends the request; `None` means that the body is to be read next.
pub fn screen_request(settings: &ListenerSettings, request: &InboundRequest) -> (r: Option<Reply>)
    ensures
        r == screened(*settings, *request),
{
    let url = chars_of(request.url.as_str());
    let cut = find_char(url.as_slice(), '?');
    let path = sub_chars(url.as_slice(), 0, cut);
    assert(path@ =~= path_of(request.url@));
    let ping = chars_of("/ping");
    let notify = chars_of("/notify");
    if same_chars(path.as_slice(), ping.as_slice()) {
        return match request.method {
            Method::Get => Some(Reply::Accepted),
            _ => Some(Reply::MethodNotAllowed),
        };
    }
    if !same_chars(path.as_slice(), notify.as_slice()) {
        return Some(Reply::NotFound);
    }
    match request.method {
        Method::Post => {},
        _ => {
            return Some(Reply::MethodNotAllowed);
        },
    }
    if settings.allow_hosts.len() > 0 {
        match &request.peer {
            Some(peer) => {
                if !listed(settings.allow_hosts.as_slice(), peer.as_str()) {
                    return Some(Reply::Forbidden);
                }
            },
            None => {},
        }
    }
    if !is_authorized(settings, request.headers.as_slice()) {
        return Some(Reply::Unauthorized);
    }
    None
}

/// A received title is never empty.
pub proof fn lemma_received_title_not_empty(
    title: Seq<char>,
    origin: Option<Seq<char>>,
    prefix_hostname: bool,
)
    ensures
        received_title(title, origin, prefix_hostname).len() > 0,
{
    reveal_strlit("Notification");
    assert("Notification"@.len() > 0);
}

/// Makes the notification that is shown for an envelope.
pub fn receive(envelope: RemoteEnvelope, prefix_hostname: bool) -> (r: Notification)
    ensures
        r.icon is None,
        r@ == received(envelope, prefix_hostname),
        r.title@.len() > 0,
{
    proof {
        lemma_received_title_not_empty(
            envelope.notification@.title,
            origin_of(envelope),
            prefix_hostname,
        );
    }
    let mut notification = envelope.notification;
    notification.icon = None;
    let title = chars_of(notification.title.as_str());
    let mut base: Vec<char> = if blank(title.as_slice()) {
        chars_of("Notification")
    } else {
        title
    };
    if prefix_hostname {
        match &envelope.context {
            Some(context) => match &context.origin_host {
                Some(host) => {
                    let mut suffix = String::new();
                    append_str(&mut suffix, " [");
                    append_str(&mut suffix, host.as_str());
                    append_str(&mut suffix, "]");
                    assert(suffix@ =~= " ["@ + host@ + "]"@);
                    let suffix_chars = chars_of(suffix.as_str());
                    if !ends_with(base.as_slice(), suffix_chars.as_slice()) {
                        let mut extended = suffix_chars;
                        let mut joined: Vec<char> = Vec::new();
                        joined.append(&mut base);
                        joined.append(&mut extended);
                        base = joined;
                    }
                },
                None => {},
            },
            None => {},
        }
    }
    notification.title = string_of(base.as_slice());
    notification
}

/// Decides on a request whose body has been read: the reply, and the
/// notification to show where there is one.
pub fn accept_body(settings: &ListenerSettings, body: InboundBody) -> (r: ListenerAction)
    ensures
        r.summary() == match body {
            InboundBody::Unreadable => (Reply::InvalidBody, None),
            InboundBody::Malformed => (Reply::InvalidJson, None),
            InboundBody::Envelope(e) => (
                Reply::Accepted,
                Some(received(e, settings.prefix_hostname)),
            ),
        },
        r.dispatch is Some ==> r.dispatch->0.icon is None,
{
    match body {
        InboundBody::Unreadable => ListenerAction { reply: Reply::InvalidBody, dispatch: None },
        InboundBody::Malformed => ListenerAction { reply: Reply::InvalidJson, dispatch: None },
        InboundBody::Envelope(e) => ListenerAction {
            reply: Reply::Accepted,
            dispatch: Some(receive(e, settings.prefix_hostname)),
        },
    }
}

/// Decides on a request as a whole.
pub fn handle_request(
    settings: &ListenerSettings,
    request: &InboundRequest,
    body: InboundBody,
) -> (r: ListenerAction)
    ensures
        r.summary() == answered(*settings, *request, body),
        r.dispatch is Some ==> r.dispatch->0.icon is None,
{
    match screen_request(settings, request) {
        Some(reply) => ListenerAction { reply, dispatch: None },
        None => accept_body(settings, body),
    }
}

/// A request that does not carry the configured token is never shown,
/// whatever else it holds.
pub proof fn lemma_bad_token_never_shown(
    settings: ListenerSettings,
    request: InboundRequest,
    body: InboundBody,
)
    requires
        path_of(request.url@) == "/notify"@,
        settings.require_token,
        settings.token is None || token_in(request.headers@) != Some(settings.token->0@),
    ensures
        answered(settings, request, body).1 is None,
{
    reveal_strlit("/ping");
    reveal_strlit("/notify");
    assert("/ping"@.len() != "/notify"@.len());
}

/// A POST to `/notify` from a peer that the allow-list lets in, without
/// the configured token, is answered with 401 and shows nothing.
pub proof fn lemma_bad_token_unauthorized(
    settings: ListenerSettings,
    request: InboundRequest,
    body: InboundBody,
)
    requires
        path_of(request.url@) == "/notify"@,
        request.method == Method::Post,
        peer_allowed(settings.allow_hosts@, request.peer),
        settings.require_token,
        settings.token is None || token_in(request.headers@) != Some(settings.token->0@),
    ensures
        answered(settings, request, body) == (Reply::Unauthorized, None::<NotificationView>),
        answered(settings, request, body).0.status_code() == 401,
{
    reveal_strlit("/ping");
    reveal_strlit("/notify");
    assert("/ping"@.len() != "/notify"@.len());
}

/// With an allow-list, a POST to `/notify` from a peer that the list does
/// not hold is answered with 403 and shows nothing, whatever its headers
/// and its body.
pub proof fn lemma_unlisted_peer_forbidden(
    settings: ListenerSettings,
    request: InboundRequest,
    body: InboundBody,
)
    requires
        path_of(request.url@) == "/notify"@,
        request.method == Method::Post,
        settings.allow_hosts@.len() > 0,
        request.peer is Some,
        !host_listed(settings.allow_hosts@, request.peer->0@),
    ensures
        answered(settings, request, body) == (Reply::Forbidden, None::<NotificationView>),
        answered(settings, request, body).0.status_code() == 403,
{
    reveal_strlit("/ping");
    reveal_strlit("/notify");
    assert("/ping"@.len() != "/notify"@.len());
}

impl ListenerSettings {
    /// Decides how a received notification is shown. With a click command
    /// the wait is handed to a detached process; without one the provider is
    /// called and nothing is waited for.
    pub fn delivery(
        &self,
        notification: Notification,
        macos_config: Option<MacosConfig>,
        context: Option<Context>,
    ) -> (r: Delivery)
        ensures
            r == if self.on_click is Some {
                Delivery::Handoff {
                    payload: WaitPayload {
                        notification,
                        macos: macos_config,
                        on_click: self.on_click,
                        context,
                    },
                    json: false,
                }
            } else {
                Delivery::Direct {
                    notification,
                    macos: macos_config,
                    options: SendOptions { wait_for_click: false },
                    on_click: None,
                    context,
                    json: false,
                }
            },
    {
        let on_click = clone_opt(&self.on_click);
        if on_click.is_some() {
            Delivery::Handoff {
                payload: WaitPayload { notification, macos: macos_config, on_click, context },
                json: false,
            }
        } else {
            Delivery::Direct {
                notification,
                macos: macos_config,
                options: SendOptions { wait_for_click: false },
                on_click: None,
                context,
                json: false,
            }
        }
    }
}

} // verus!
