//! The outbound side of the relay: where to send, how often to try, and
//! what to report.
//!
//! The requests themselves are made by the caller. [`RelayState`] tells it
//! after each answer whether to ask again.

use crate::error::NotifallError;
use crate::provider::ProviderError;
use crate::text::{
    append_chars, append_decimal, append_range, append_str, chars_of, decimal, ends_with,
    find_char, index_of, last_index_of, lemma_decimal_last, parse_port, port_of, rfind_char,
    starts_with, string_of, sub_chars,
};
use vstd::prelude::*;

verus! {

/// The port of a listener where none is given.
pub const DEFAULT_PORT: u16 = 4280;

/// The URL that takes notifications on `host` and `port`.
pub open spec fn notify_url(host: Seq<char>, port: u16) -> Seq<char> {
    "http://"@ + host + ":"@ + decimal(port as nat) + "/notify"@
}

/// `url` without a leading `http://` or `https://`.
pub open spec fn without_scheme(url: Seq<char>) -> Seq<char> {
    if "http://"@.is_prefix_of(url) {
        url.skip("http://"@.len() as int)
    } else if "https://"@.is_prefix_of(url) {
        url.skip("https://"@.len() as int)
    } else {
        url
    }
}

/// The host-and-port part of `url`: what follows the scheme, up to the
/// first slash.
pub open spec fn authority(url: Seq<char>) -> Seq<char> {
    let rest = without_scheme(url);
    rest.take(index_of(rest, '/'))
}

/// The host and port that `url` names: its authority split at the last
/// colon, where what follows the colon is a port number.
pub open spec fn url_target(url: Seq<char>) -> Option<(Seq<char>, u16)> {
    let a = authority(url);
    let colon = last_index_of(a, ':');
    if colon < a.len() {
        match port_of(a.skip(colon + 1)) {
            Some(port) => Some((a.take(colon), port)),
            None => None,
        }
    } else {
        None
    }
}

/// Reads host and port out of a URL.
pub fn parse_remote_url(url: &str) -> (r: Option<(String, u16)>)
    ensures
        match r {
            Some((host, port)) => url_target(url@) == Some((host@, port)),
            None => url_target(url@) is None,
        },
{
    let cs = chars_of(url);
    let http = chars_of("http://");
    let https = chars_of("https://");
    let start: usize = if starts_with(cs.as_slice(), http.as_slice()) {
        http.len()
    } else if starts_with(cs.as_slice(), https.as_slice()) {
        https.len()
    } else {
        0
    };
    let rest = sub_chars(cs.as_slice(), start, cs.len());
    assert(rest@ =~= without_scheme(url@));
    let slash = find_char(rest.as_slice(), '/');
    let a = sub_chars(rest.as_slice(), 0, slash);
    assert(a@ =~= authority(url@));
    let colon = rfind_char(a.as_slice(), ':');
    if colon >= a.len() {
        return None;
    }
    let digits = sub_chars(a.as_slice(), colon + 1, a.len());
    assert(digits@ =~= a@.skip(colon + 1));
    match parse_port(digits.as_slice()) {
        Some(port) => {
            let host = sub_chars(a.as_slice(), 0, colon);
            assert(host@ =~= a@.take(colon as int));
            Some((string_of(host.as_slice()), port))
        },
        None => None,
    }
}

/// `s` with every trailing repetition of `pattern` removed.
pub open spec fn trimmed_end(s: Seq<char>, pattern: Seq<char>) -> Seq<char>
    decreases s.len(),
{
    if pattern.len() > 0 && pattern.is_suffix_of(s) {
        trimmed_end(s.take(s.len() - pattern.len()), pattern)
    } else {
        s
    }
}

/// The URL that answers liveness probes, next to the notify URL `url`.
pub open spec fn ping_url(url: Seq<char>) -> Seq<char> {
    if "/notify"@.is_suffix_of(url) {
        trimmed_end(url, "/notify"@) + "/ping"@
    } else if url.len() > 0 && url.last() == '/' {
        url + "ping"@
    } else {
        url + "/ping"@
    }
}

/// The ping URL of the notify URL of a host and a port is the same URL
/// with the ping path in place of the notify path.
pub proof fn lemma_ping_of_notify_url(host: Seq<char>, port: u16)
    ensures
        ping_url(notify_url(host, port)) == "http://"@ + host + ":"@ + decimal(port as nat)
            + "/ping"@,
{
    reveal_strlit("/notify");
    let base = "http://"@ + host + ":"@ + decimal(port as nat);
    let url = notify_url(host, port);
    lemma_decimal_last(port as nat);
    assert("/notify"@.len() == 7);
    assert(url.subrange(url.len() - 7, url.len() as int) =~= "/notify"@);
    assert(url.take(url.len() - 7) =~= base);
    assert(base.last() == decimal(port as nat).last());
    assert("/notify"@.last() == 'y');
    if "/notify"@.is_suffix_of(base) {
        assert(base.subrange(base.len() - 7, base.len() as int).last() == base.last());
    }
    assert(trimmed_end(base, "/notify"@) == base);
    assert(trimmed_end(url, "/notify"@) == base);
}

/// Turns a notify URL into the URL for liveness probes: the notify path
/// is replaced by the ping path; on any other URL the ping path is added.
pub fn to_ping_url(url: &str) -> (r: String)
    ensures
        r@ == ping_url(url@),
{
    let cs = chars_of(url);
    let notify = chars_of("/notify");
    let mut out = String::new();
    if ends_with(cs.as_slice(), notify.as_slice()) {
        proof {
            reveal_strlit("/notify");
        }
        let mut end: usize = cs.len();
        assert(cs@.take(end as int) =~= cs@);
        assert(notify@.len() == 7);
        while end >= notify.len() && ends_with(
            sub_chars(cs.as_slice(), 0, end).as_slice(),
            notify.as_slice(),
        )
            invariant
                end <= cs@.len(),
                notify@ == "/notify"@,
                notify@.len() == 7,
                trimmed_end(cs@, notify@) == trimmed_end(cs@.take(end as int), notify@),
            decreases end,
        {
            assert(cs@.take(end as int).take(end - notify@.len()) =~= cs@.take(
                end - notify@.len(),
            ));
            end -= notify.len();
        }
        append_range(&mut out, cs.as_slice(), 0, end);
        append_str(&mut out, "/ping");
        assert(out@ =~= ping_url(url@));
    } else if cs.len() > 0 && cs[cs.len() - 1] == '/' {
        append_chars(&mut out, cs.as_slice());
        append_str(&mut out, "ping");
        assert(out@ =~= ping_url(url@));
    } else {
        append_chars(&mut out, cs.as_slice());
        append_str(&mut out, "/ping");
        assert(out@ =~= ping_url(url@));
    }
    out
}

/// Where a relayed notification goes.
#[derive(Debug, Clone, PartialEq)]
pub struct RemoteTarget {
    pub url: String,
    pub host: String,
    pub port: u16,
}

/// The first of two optional ports that is there, or the default port.
pub open spec fn port_or_default(first: Option<u16>, second: Option<u16>) -> u16 {
    match first {
        Some(p) => p,
        None => match second {
            Some(p) => p,
            None => DEFAULT_PORT,
        },
    }
}

/// Host and port of the endpoint. A host on the command line wins over a
/// configured host, and that over a configured URL; a port on the command
/// line wins over the configured one, and that over the default.
pub open spec fn target_of(
    cli_host: Option<Seq<char>>,
    cli_port: Option<u16>,
    cfg_host: Option<Seq<char>>,
    cfg_port: Option<u16>,
    cfg_url: Option<Seq<char>>,
) -> Option<(Seq<char>, u16)> {
    if cli_host is Some {
        Some((cli_host->0, port_or_default(cli_port, cfg_port)))
    } else if cfg_host is Some {
        Some((cfg_host->0, port_or_default(cli_port, cfg_port)))
    } else if cfg_url is Some {
        match url_target(cfg_url->0) {
            Some((host, port)) => Some(
                (
                    host,
                    match cli_port {
                        Some(p) => p,
                        None => port,
                    },
                ),
            ),
            None => None,
        }
    } else {
        None
    }
}

fn target_for(host: &str, port: u16) -> (r: RemoteTarget)
    ensures
        r.host@ == host@,
        r.port == port,
        r.url@ == notify_url(host@, port),
{
    let mut url = String::new();
    append_str(&mut url, "http://");
    append_str(&mut url, host);
    append_str(&mut url, ":");
    append_decimal(&mut url, port as u128);
    append_str(&mut url, "/notify");
    assert(url@ =~= notify_url(host@, port));
    RemoteTarget { url, host: string_of(chars_of(host).as_slice()), port }
}

/// Resolves the endpoint of the relay. `None` means that neither the
/// command line nor the configuration names one.
pub fn resolve_remote_target(
    cli_host: Option<&str>,
    cli_port: Option<u16>,
    cfg_host: Option<&str>,
    cfg_port: Option<u16>,
    cfg_url: Option<&str>,
) -> (r: Option<RemoteTarget>)
    ensures
        match target_of(
            text_of(cli_host),
            cli_port,
            text_of(cfg_host),
            cfg_port,
            text_of(cfg_url),
        ) {
            Some((host, port)) => r is Some && r->0.host@ == host && r->0.port == port
                && r->0.url@ == notify_url(host, port),
            None => r is None,
        },
{
    let port: u16 = match cli_port {
        Some(p) => p,
        None => match cfg_port {
            Some(p) => p,
            None => DEFAULT_PORT,
        },
    };
    if let Some(host) = cli_host {
        return Some(target_for(host, port));
    }
    if let Some(host) = cfg_host {
        return Some(target_for(host, port));
    }
    if let Some(url) = cfg_url {
        if let Some((host, url_port)) = parse_remote_url(url) {
            let port: u16 = match cli_port {
                Some(p) => p,
                None => url_port,
            };
            return Some(target_for(host.as_str(), port));
        }
    }
    None
}

/// The text of an optional string slice.
pub open spec fn text_of(s: Option<&str>) -> Option<Seq<char>> {
    match s {
        Some(v) => Some(v@),
        None => None,
    }
}

/// What came of one request to the listener.
#[derive(Debug, Clone, PartialEq)]
pub enum AttemptResult {
    /// The listener answered with this status.
    Status(u16),
    /// No answer came; the text says why.
    Transport(String),
}

impl AttemptResult {
    /// Whether the request was accepted: a status from 200 to 299.
    pub open spec fn is_success(self) -> bool {
        self matches AttemptResult::Status(code) && 200 <= code < 300
    }

    /// The error that a failed request is reported with.
    pub open spec fn error_text(self) -> Seq<char> {
        match self {
            AttemptResult::Status(code) => "remote error: status "@ + decimal(code as nat),
            AttemptResult::Transport(why) => "remote error: "@ + why@,
        }
    }
}

/// How far a send has come: `answered` requests have been made and have
/// failed, out of `retries + 1` that may be made.
#[derive(Debug, Clone, Copy, PartialEq, Eq, Structural)]
pub struct RelayState {
    pub retries: u32,
    pub answered: u32,
}

/// What to do after a request has been answered.
#[derive(Debug, Clone, PartialEq)]
pub enum RelayStep {
    /// Make one more request.
    Request(RelayState),
    /// The notification was accepted.
    Delivered,
    /// Every attempt failed; this is the error of the last one.
    Failed(String),
}

/// A [`RelayStep`] with its text as a sequence.
pub ghost enum RelayStepView {
    Request(RelayState),
    Delivered,
    Failed(Seq<char>),
}

impl View for RelayStep {
    type V = RelayStepView;

    open spec fn view(&self) -> RelayStepView {
        match self {
            RelayStep::Request(s) => RelayStepView::Request(*s),
            RelayStep::Delivered => RelayStepView::Delivered,
            RelayStep::Failed(m) => RelayStepView::Failed(m@),
        }
    }
}

impl RelayState {
    /// A state in which one more request is due.
    pub open spec fn wf(self) -> bool {
        self.answered <= self.retries
    }

    /// The state before the first request.
    pub fn begin(retries: u32) -> (r: Self)
        ensures
            r == (RelayState { retries, answered: 0 }),
            r.wf(),
    {
        RelayState { retries, answered: 0 }
    }

    /// The step after `result` has come in for the request that was due.
    pub open spec fn step(self, result: AttemptResult) -> RelayStepView {
        if result.is_success() {
            RelayStepView::Delivered
        } else if self.answered < self.retries {
            RelayStepView::Request(
                RelayState { retries: self.retries, answered: (self.answered + 1) as u32 },
            )
        } else {
            RelayStepView::Failed(result.error_text())
        }
    }

    /// Takes the answer to the request that was due. A status from 200 to
    /// 299 ends the send; any other answer leads to the next request, or,
    /// after `retries + 1` of them, to the error of this last one.
    pub fn advance(self, result: AttemptResult) -> (r: RelayStep)
        ensures
            r@ == self.step(result),
            r matches RelayStep::Request(next) ==> next.wf(),
    {
        match result {
            AttemptResult::Status(code) => {
                if 200 <= code && code < 300 {
                    return RelayStep::Delivered;
                }
                if self.answered < self.retries {
                    return RelayStep::Request(
                        RelayState { retries: self.retries, answered: self.answered + 1 },
                    );
                }
                let mut text = String::new();
                append_str(&mut text, "remote error: status ");
                append_decimal(&mut text, code as u128);
                assert(text@ =~= result.error_text());
                RelayStep::Failed(text)
            },
            AttemptResult::Transport(why) => {
                if self.answered < self.retries {
                    return RelayStep::Request(
                        RelayState { retries: self.retries, answered: self.answered + 1 },
                    );
                }
                let mut text = String::new();
                append_str(&mut text, "remote error: ");
                append_str(&mut text, why.as_str());
                assert(text@ =~= result.error_text());
                RelayStep::Failed(text)
            },
        }
    }

    /// The number of requests that are made from this state on, when the
    /// answers come in as `results`, one for each request in turn.
    pub open spec fn requests_made(self, results: Seq<AttemptResult>) -> nat
        decreases results.len(),
    {
        if results.len() == 0 {
            0
        } else {
            match self.step(results[0]) {
                RelayStepView::Request(next) => 1 + next.requests_made(results.drop_first()),
                _ => 1,
            }
        }
    }

    /// The step on which a send from this state ends, when the answers
    /// come in as `results`; `None` where the answers run out before that.
    pub open spec fn ends_with(self, results: Seq<AttemptResult>) -> Option<RelayStepView>
        decreases results.len(),
    {
        if results.len() == 0 {
            None
        } else {
            match self.step(results[0]) {
                RelayStepView::Request(next) => next.ends_with(results.drop_first()),
                last => Some(last),
            }
        }
    }
}

/// The error with which a send that failed on every attempt is reported.
pub fn relay_error(last_error: String) -> (r: NotifallError)
    ensures
        r == NotifallError::Provider(ProviderError::Message(last_error)),
{
    NotifallError::Provider(ProviderError::Message(last_error))
}

/// While every request fails, a send goes on until its budget is used up:
/// from a state with `answered` failures behind it, exactly
/// `retries - answered + 1` requests are made, and the send ends with the
/// error of the last one.
pub proof fn lemma_sustained_failure_from(state: RelayState, results: Seq<AttemptResult>)
    requires
        state.wf(),
        results.len() > state.retries - state.answered,
        forall|i: int| 0 <= i <= state.retries - state.answered ==> !(#[trigger] results[i]).is_success(),
    ensures
        state.requests_made(results) == state.retries - state.answered + 1,
        state.ends_with(results) == Some(
            RelayStepView::Failed(results[state.retries - state.answered].error_text()),
        ),
    decreases state.retries - state.answered,
{
    assert(!results[0].is_success());
    if state.answered < state.retries {
        let next = RelayState { retries: state.retries, answered: (state.answered + 1) as u32 };
        let rest = results.drop_first();
        assert forall|i: int| 0 <= i <= next.retries - next.answered implies !(#[trigger] rest[i]).is_success() by {
            assert(rest[i] == results[i + 1]);
        }
        lemma_sustained_failure_from(next, rest);
        assert(rest[next.retries - next.answered] == results[state.retries - state.answered]);
    }
}

/// On sustained failure a send makes exactly `retries + 1` requests and
/// ends with the error of the last one.
pub proof fn lemma_sustained_failure(retries: u32, results: Seq<AttemptResult>)
    requires
        results.len() > retries,
        forall|i: int| 0 <= i <= retries ==> !(#[trigger] results[i]).is_success(),
    ensures
        (RelayState { retries, answered: 0 }).requests_made(results) == retries + 1,
        (RelayState { retries, answered: 0 }).ends_with(results) == Some(
            RelayStepView::Failed(results[retries as int].error_text()),
        ),
{
    lemma_sustained_failure_from(RelayState { retries, answered: 0 }, results);
}

/// A send whose first request is accepted makes exactly one request.
pub proof fn lemma_first_attempt_success(retries: u32, results: Seq<AttemptResult>)
    requires
        results.len() > 0,
        results[0].is_success(),
    ensures
        (RelayState { retries, answered: 0 }).requests_made(results) == 1,
        (RelayState { retries, answered: 0 }).ends_with(results) == Some(RelayStepView::Delivered),
{
}

/// A send never makes more than `retries + 1` requests, whatever the
/// answers are.
pub proof fn lemma_requests_bounded(state: RelayState, results: Seq<AttemptResult>)
    requires
        state.wf(),
    ensures
        state.requests_made(results) <= state.retries - state.answered + 1,
    decreases results.len(),
{
    if results.len() > 0 {
        match state.step(results[0]) {
            RelayStepView::Request(next) => {
                lemma_requests_bounded(next, results.drop_first());
            },
            _ => {},
        }
    }
}

} // verus!
