//! Switching remote forwarding on and off in the configuration file.

use crate::cli::{ForwardState, RemoteForwardArgs};
use crate::document::{
    doc_items, doc_tables, doc_text, doc_values, document_text, has_item, holds_text, is_table,
    lemma_same_outside_then, parse_document, put_table, put_value, read_value, remove_key,
    same_at, same_outside, toml_parses, ConfigValue, ConfigValueView,
};
use crate::error::NotifallError;
use crate::relay::{parse_remote_url, url_target, DEFAULT_PORT};
use crate::text::append_str;
use toml_edit::DocumentMut;
use vstd::prelude::*;

verus! {

/// The path of `key` in the `remote` table.
pub open spec fn remote_path(key: Seq<char>) -> Seq<Seq<char>> {
    seq!["remote"@, key]
}

/// The path of the default provider.
pub open spec fn default_provider_path() -> Seq<Seq<char>> {
    seq!["default_provider"@]
}

/// The text that `doc` holds at `path`.
pub open spec fn text_at(doc: DocumentMut, path: Seq<Seq<char>>) -> Option<Seq<char>> {
    if doc_values(doc).contains_key(path) {
        match doc_values(doc)[path] {
            ConfigValueView::Text(t) => Some(t),
            _ => None,
        }
    } else {
        None
    }
}

/// The integer that `doc` holds at `path`.
pub open spec fn integer_at(doc: DocumentMut, path: Seq<Seq<char>>) -> Option<i64> {
    if doc_values(doc).contains_key(path) {
        match doc_values(doc)[path] {
            ConfigValueView::Integer(i) => Some(i),
            _ => None,
        }
    } else {
        None
    }
}

/// The boolean that `doc` holds at `path`.
pub open spec fn bool_at(doc: DocumentMut, path: Seq<Seq<char>>) -> Option<bool> {
    if doc_values(doc).contains_key(path) {
        match doc_values(doc)[path] {
            ConfigValueView::Bool(b) => Some(b),
            _ => None,
        }
    } else {
        None
    }
}

fn path1(a: &str) -> (r: Vec<String>)
    ensures
        r.deep_view() == seq![a@],
{
    let mut path: Vec<String> = Vec::new();
    path.push(a.to_owned());
    assert(path.deep_view() =~= seq![a@]);
    path
}

fn path2(a: &str, b: &str) -> (r: Vec<String>)
    ensures
        r.deep_view() == seq![a@, b@],
{
    let mut path: Vec<String> = Vec::new();
    path.push(a.to_owned());
    path.push(b.to_owned());
    assert(path.deep_view() =~= seq![a@, b@]);
    path
}

fn text_in(doc: &DocumentMut, path: &Vec<String>) -> (r: Option<String>)
    ensures
        r.deep_view() == text_at(*doc, path.deep_view()),
        r is Some && path.deep_view().len() > 0 ==> doc_items(*doc).contains(
            path.deep_view().take(1),
        ),
{
    assert(path.deep_view().len() == path@.len());
    match read_value(doc, path.as_slice()) {
        Some(ConfigValue::Text(t)) => Some(t),
        _ => None,
    }
}

/// The URL of the listener that the document names.
pub fn remote_url_from_doc(doc: &DocumentMut) -> (r: Option<String>)
    ensures
        r.deep_view() == text_at(*doc, remote_path("url"@)),
        r is Some ==> doc_items(*doc).contains(seq!["remote"@]),
{
    let path = path2("remote", "url");
    assert(path.deep_view().take(1) =~= seq!["remote"@]);
    text_in(doc, &path)
}

/// The host of the listener in `doc`: the configured host, else the host
/// of the configured URL.
pub open spec fn host_in(doc: DocumentMut) -> Option<Seq<char>> {
    match text_at(doc, remote_path("host"@)) {
        Some(h) => Some(h),
        None => match text_at(doc, remote_path("url"@)) {
            Some(u) => match url_target(u) {
                Some((h, _)) => Some(h),
                None => None,
            },
            None => None,
        },
    }
}

/// The port of the listener in `doc`: the configured port where it fits
/// sixteen bits, else the port of the configured URL.
pub open spec fn port_in(doc: DocumentMut) -> Option<u16> {
    match integer_at(doc, remote_path("port"@)) {
        Some(p) if 0 <= p <= u16::MAX => Some(p as u16),
        _ => match text_at(doc, remote_path("url"@)) {
            Some(u) => match url_target(u) {
                Some((_, p)) => Some(p),
                None => None,
            },
            None => None,
        },
    }
}

/// Whether forwarding is on in `doc`: as the forwarding flag says; without
/// a flag, when the default provider is `remote`.
pub open spec fn enabled_in(doc: DocumentMut) -> bool {
    match bool_at(doc, remote_path("forward_enabled"@)) {
        Some(b) => b,
        None => text_at(doc, default_provider_path()) == Some("remote"@),
    }
}

/// The host of the listener that the document names.
pub fn remote_host_from_doc(doc: &DocumentMut) -> (r: Option<String>)
    ensures
        r.deep_view() == host_in(*doc),
        r is Some ==> doc_items(*doc).contains(seq!["remote"@]),
{
    let path = path2("remote", "host");
    assert(path.deep_view().take(1) =~= seq!["remote"@]);
    if let Some(host) = text_in(doc, &path) {
        return Some(host);
    }
    match remote_url_from_doc(doc) {
        Some(url) => match parse_remote_url(url.as_str()) {
            Some((host, _)) => Some(host),
            None => None,
        },
        None => None,
    }
}

/// The port of the listener that the document names.
pub fn remote_port_from_doc(doc: &DocumentMut) -> (r: Option<u16>)
    ensures
        r == port_in(*doc),
        r is Some ==> doc_items(*doc).contains(seq!["remote"@]),
{
    let path = path2("remote", "port");
    assert(path.deep_view().take(1) =~= seq!["remote"@]);
    assert(path.deep_view().len() == path@.len());
    if let Some(ConfigValue::Integer(p)) = read_value(doc, path.as_slice()) {
        if 0 <= p && p <= 65535 {
            return Some(p as u16);
        }
    }
    match remote_url_from_doc(doc) {
        Some(url) => match parse_remote_url(url.as_str()) {
            Some((_, port)) => Some(port),
            None => None,
        },
        None => None,
    }
}

/// Whether the document has forwarding switched on.
pub fn forward_enabled(doc: &DocumentMut) -> (r: bool)
    ensures
        r == enabled_in(*doc),
{
    if let Some(ConfigValue::Bool(enabled)) = read_value(
        doc,
        path2("remote", "forward_enabled").as_slice(),
    ) {
        return enabled;
    }
    match text_in(doc, &path1("default_provider")) {
        Some(p) => *p.as_str() == *"remote",
        None => false,
    }
}

/// Whether fields of the `remote` table can be set: the table is there,
/// or nothing is in its place.
pub open spec fn remote_settable(doc: DocumentMut) -> bool {
    doc_tables(doc).contains(seq!["remote"@]) || !doc_items(doc).contains(seq!["remote"@])
}

fn remote_is_settable(doc: &DocumentMut) -> (r: bool)
    ensures
        r == remote_settable(*doc),
{
    let remote = path1("remote");
    is_table(doc, remote.as_slice()) || !has_item(doc, remote.as_slice())
}

/// What stays as it was at a path that a change does not lead through.
proof fn lemma_kept(
    before: DocumentMut,
    after: DocumentMut,
    changed: Seq<Seq<char>>,
    path: Seq<Seq<char>>,
)
    requires
        same_outside(before, after, changed),
        !changed.is_prefix_of(path),
    ensures
        same_at(before, after, path),
        text_at(after, path) == text_at(before, path),
        integer_at(after, path) == integer_at(before, path),
        bool_at(after, path) == bool_at(before, path),
{
    assert(same_at(before, after, path));
}

/// Two fields of the `remote` table lie apart.
proof fn lemma_apart(a: Seq<char>, b: Seq<char>)
    requires
        a != b,
    ensures
        !remote_path(a).is_prefix_of(remote_path(b)),
{
    if remote_path(a).is_prefix_of(remote_path(b)) {
        assert(remote_path(b).subrange(0, 2)[1] == b);
        assert(remote_path(a)[1] == a);
    }
}

/// A field of the `remote` table lies within the table, and the table
/// lies apart from the default provider.
proof fn lemma_within(a: Seq<char>)
    ensures
        seq!["remote"@].is_prefix_of(remote_path(a)),
        !remote_path(a).is_prefix_of(seq!["remote"@]),
        !remote_path(a).is_prefix_of(default_provider_path()),
        !default_provider_path().is_prefix_of(remote_path(a)),
        !default_provider_path().is_prefix_of(seq!["remote"@]),
        !seq!["remote"@].is_prefix_of(default_provider_path()),
{
    reveal_strlit("remote");
    reveal_strlit("default_provider");
    assert("remote"@.len() != "default_provider"@.len());
    if default_provider_path().is_prefix_of(remote_path(a)) {
        assert(remote_path(a).subrange(0, 1)[0] == "remote"@);
        assert(default_provider_path()[0] == "default_provider"@);
    }
    if default_provider_path().is_prefix_of(seq!["remote"@]) {
        assert(seq!["remote"@].subrange(0, 1)[0] == "remote"@);
        assert(default_provider_path()[0] == "default_provider"@);
    }
    if seq!["remote"@].is_prefix_of(default_provider_path()) {
        assert(default_provider_path().subrange(0, 1)[0] == "default_provider"@);
        assert(seq!["remote"@][0] == "remote"@);
    }
    assert(seq!["remote"@] =~= remote_path(a).subrange(0, 1));
}

/// Sets `key` in the `remote` table, which is made where nothing is in
/// its place. Where something else than a table is in its place, nothing
/// is set. Nothing changes outside the `remote` table, and within a table
/// that was there nothing but the field.
pub fn set_remote_field(doc: &mut DocumentMut, key: &str, value: &ConfigValue)
    ensures
        remote_settable(*old(doc)) ==> doc_tables(*final(doc)).contains(seq!["remote"@])
            && doc_values(*final(doc)).contains_key(remote_path(key@)) && doc_values(
            *final(doc),
        )[remote_path(key@)] == value@,
        same_outside(*old(doc), *final(doc), seq!["remote"@]),
        doc_tables(*old(doc)).contains(seq!["remote"@]) ==> same_outside(
            *old(doc),
            *final(doc),
            remote_path(key@),
        ),
        !remote_settable(*old(doc)) ==> *final(doc) == *old(doc),
{
    let remote = path1("remote");
    let path = path2("remote", key);
    let root: Vec<String> = Vec::new();
    let root_is_table = is_table(doc, root.as_slice());
    assert(root_is_table);
    let ghost p = path.deep_view();
    proof {
        assert(p.take(0) =~= root.deep_view());
        assert(p.take(1) =~= remote.deep_view());
        assert(remote.deep_view().take(0) =~= root.deep_view());
        assert(remote.deep_view() =~= p.subrange(0, 1));
        assert(!p.is_prefix_of(remote.deep_view()));
    }
    if is_table(doc, remote.as_slice()) {
        assert forall|n: int| 0 <= n < p.len() implies doc_tables(*doc).contains(
            #[trigger] p.take(n),
        ) by {
            if n == 0 {
                assert(p.take(0) =~= root.deep_view());
            } else {
                assert(p.take(n) =~= remote.deep_view());
            }
        }
        put_value(doc, path.as_slice(), value);
        proof {
            assert(same_at(*old(doc), *doc, remote.deep_view()));
            lemma_same_outside_then(*old(doc), *old(doc), *doc, remote.deep_view(), p);
        }
    } else if !has_item(doc, remote.as_slice()) {
        assert forall|n: int| 0 <= n < remote.deep_view().len() implies doc_tables(
            *doc,
        ).contains(#[trigger] remote.deep_view().take(n)) by {
            assert(remote.deep_view().take(n) =~= root.deep_view());
        }
        put_table(doc, remote.as_slice());
        let ghost made = *doc;
        assert forall|n: int| 0 <= n < p.len() implies doc_tables(*doc).contains(
            #[trigger] p.take(n),
        ) by {
            if n == 0 {
                assert(p.take(0) =~= remote.deep_view().take(0));
            } else {
                assert(p.take(n) =~= remote.deep_view());
            }
        }
        put_value(doc, path.as_slice(), value);
        proof {
            assert(same_at(made, *doc, remote.deep_view()));
            lemma_same_outside_then(*old(doc), made, *doc, remote.deep_view(), p);
        }
    } else {
        assert(same_outside(*old(doc), *doc, seq!["remote"@]));
    }
}

/// Sets the default provider. Nothing else changes.
pub fn set_default_provider(doc: &mut DocumentMut, provider: &str)
    ensures
        text_at(*final(doc), default_provider_path()) == Some(provider@),
        same_outside(*old(doc), *final(doc), default_provider_path()),
{
    let path = path1("default_provider");
    let root: Vec<String> = Vec::new();
    let root_is_table = is_table(doc, root.as_slice());
    assert(root_is_table);
    proof {
        let p = path.deep_view();
        assert forall|n: int| 0 <= n < p.len() implies doc_tables(*doc).contains(
            #[trigger] p.take(n),
        ) by {
            assert(p.take(n) =~= root.deep_view());
        }
    }
    put_value(doc, path.as_slice(), &ConfigValue::Text(provider.to_owned()));
}

/// The state that a command asks for; `None` where it only asks.
pub open spec fn desired_state(state: ForwardState, enabled: bool) -> Option<bool> {
    match state {
        ForwardState::Status => None,
        ForwardState::Toggle => Some(!enabled),
        ForwardState::On => Some(true),
        ForwardState::Off => Some(false),
    }
}

/// The host that the configuration names once the host of the command
/// line, if there is one, has been set.
pub open spec fn host_after(doc: DocumentMut, given: Option<Seq<char>>) -> Option<Seq<char>> {
    if remote_settable(doc) && given is Some {
        given
    } else {
        host_in(doc)
    }
}

/// What switching asks to be told when no host is known.
pub open spec fn missing_host_text(path_display: Seq<char>) -> Seq<char> {
    "Remote forwarding needs a remote host.\n\nSet it with:\n  wakedev remote forward on --host mba --port 4280\nor:\n  wakedev config set remote.host mba\n  wakedev config set remote.port 4280\n\nConfig file: "@
        + path_display + "\nIf missing, run: wakedev config init"@
}

/// Whether `before` and `after` hold the same at every path that leads
/// neither into the `remote` table nor to the default provider.
pub open spec fn same_elsewhere(before: DocumentMut, after: DocumentMut) -> bool {
    forall|other: Seq<Seq<char>>|
        !seq!["remote"@].is_prefix_of(other) && !default_provider_path().is_prefix_of(other)
            ==> #[trigger] same_at(before, after, other)
}

/// Whether `before` and `after` hold the same at every path but the
/// default provider and the fields of the `remote` table that switching
/// on sets: host, port, previous provider and the flag.
pub open spec fn same_but_switch(before: DocumentMut, after: DocumentMut) -> bool {
    forall|other: Seq<Seq<char>>|
        !remote_path("host"@).is_prefix_of(other) && !remote_path("port"@).is_prefix_of(other)
            && !remote_path("previous_provider"@).is_prefix_of(other) && !remote_path(
            "forward_enabled"@,
        ).is_prefix_of(other) && !default_provider_path().is_prefix_of(other)
            ==> #[trigger] same_at(before, after, other)
}

/// Whether `before` and `after` hold the same at every path but the
/// default provider and the flag in the `remote` table.
pub open spec fn same_but_flag(before: DocumentMut, after: DocumentMut) -> bool {
    forall|other: Seq<Seq<char>>|
        !remote_path("forward_enabled"@).is_prefix_of(other) && !default_provider_path().is_prefix_of(
            other,
        ) ==> #[trigger] same_at(before, after, other)
}

/// Whether `after` is `before` with forwarding switched on, for a command
/// that gave `host` and `port`: `remote` is the default provider; where
/// fields of the `remote` table can be set, the table is there, the flag
/// is on, host and port are as given, the default port stands where no
/// port was named, and the provider that was the default one, unless it
/// was `remote`, is kept as the previous one. Nothing changes outside the
/// `remote` table but the default provider, and in a table that was there
/// nothing but these fields.
pub open spec fn switched_on(
    before: DocumentMut,
    after: DocumentMut,
    host: Option<Seq<char>>,
    port: Option<u16>,
) -> bool {
    &&& text_at(after, default_provider_path()) == Some("remote"@)
    &&& same_elsewhere(before, after)
    &&& !remote_settable(before) ==> same_outside(before, after, default_provider_path())
    &&& doc_tables(before).contains(seq!["remote"@]) ==> same_but_switch(before, after)
    &&& remote_settable(before) ==> {
        &&& doc_tables(after).contains(seq!["remote"@])
        &&& bool_at(after, remote_path("forward_enabled"@)) == Some(true)
        &&& host is Some ==> text_at(after, remote_path("host"@)) == host
        &&& port is Some ==> integer_at(after, remote_path("port"@)) == Some(port->0 as i64)
        &&& port is None && port_in(before) is None ==> integer_at(
            after,
            remote_path("port"@),
        ) == Some(DEFAULT_PORT as i64)
        &&& match text_at(before, default_provider_path()) {
            Some(current) => current != "remote"@ ==> text_at(
                after,
                remote_path("previous_provider"@),
            ) == Some(current),
            None => true,
        }
    }
}

/// Whether `after` is `before` with forwarding switched off: where fields
/// of the `remote` table can be set, the flag is off; the previous
/// provider is the default one again, unless it is `remote`; without a
/// previous provider, `macos` is the default one where a local provider
/// exists, and there is no default provider where none does. Nothing
/// changes outside the `remote` table but the default provider, and in a
/// table that was there nothing but the flag.
pub open spec fn switched_off(before: DocumentMut, after: DocumentMut, local_available: bool) -> bool {
    &&& same_elsewhere(before, after)
    &&& doc_tables(before).contains(seq!["remote"@]) ==> same_but_flag(before, after)
    &&& !remote_settable(before) ==> same_outside(before, after, default_provider_path())
    &&& remote_settable(before) ==> bool_at(after, remote_path("forward_enabled"@)) == Some(false)
    &&& match text_at(before, remote_path("previous_provider"@)) {
        Some(previous) => text_at(after, default_provider_path()) == if previous != "remote"@ {
            Some(previous)
        } else {
            text_at(before, default_provider_path())
        },
        None => if local_available {
            text_at(after, default_provider_path()) == Some("macos"@)
        } else {
            !doc_items(after).contains(default_provider_path())
        },
    }
}

/// Where fields of the `remote` table can be set, a configuration in which
/// forwarding was switched on says that forwarding is on.
pub proof fn lemma_switched_on_is_enabled(
    before: DocumentMut,
    after: DocumentMut,
    host: Option<Seq<char>>,
    port: Option<u16>,
)
    requires
        remote_settable(before),
        switched_on(before, after, host, port),
    ensures
        enabled_in(after),
{
}

/// Where fields of the `remote` table can be set, a configuration in which
/// forwarding was switched off says that forwarding is off.
pub proof fn lemma_switched_off_is_disabled(
    before: DocumentMut,
    after: DocumentMut,
    local_available: bool,
)
    requires
        remote_settable(before),
        switched_off(before, after, local_available),
    ensures
        !enabled_in(after),
{
}

/// What a forwarding command came to.
#[derive(Debug, Clone, Copy, PartialEq, Eq, Structural)]
pub enum ForwardOutcome {
    /// The command only asked: forwarding is on, or off.
    Status(bool),
    /// Forwarding was switched on, or off.
    Switched(bool),
}

/// Whether `r` and `after` are what a forwarding command makes of the
/// document `before`. A command that only asks changes nothing. Forwarding
/// cannot be switched on while no host is known: that is an error, and
/// nothing changes.
pub open spec fn forwarded(
    before: DocumentMut,
    after: DocumentMut,
    r: Result<ForwardOutcome, NotifallError>,
    args: RemoteForwardArgs,
    local_available: bool,
    path_display: Seq<char>,
) -> bool {
    match desired_state(args.state, enabled_in(before)) {
        None => r == Ok::<ForwardOutcome, NotifallError>(
            ForwardOutcome::Status(enabled_in(before)),
        ) && after == before,
        Some(true) => if host_after(before, args.host.deep_view()) is None {
            &&& r matches Err(NotifallError::RemoteForwardMissingHost(m)) && m@
                == missing_host_text(path_display)
            &&& after == before
        } else {
            &&& r == Ok::<ForwardOutcome, NotifallError>(ForwardOutcome::Switched(true))
            &&& switched_on(before, after, args.host.deep_view(), args.port)
        },
        Some(false) => {
            &&& r == Ok::<ForwardOutcome, NotifallError>(ForwardOutcome::Switched(false))
            &&& switched_off(before, after, local_available)
        },
    }
}

/// The names of the fields of the `remote` table differ.
proof fn lemma_field_names()
    ensures
        "host"@ != "port"@,
        "host"@ != "previous_provider"@,
        "host"@ != "forward_enabled"@,
        "port"@ != "previous_provider"@,
        "port"@ != "forward_enabled"@,
        "previous_provider"@ != "forward_enabled"@,
{
    reveal_strlit("host");
    reveal_strlit("port");
    reveal_strlit("previous_provider");
    reveal_strlit("forward_enabled");
    assert("host"@[0] == 'h' && "port"@[0] == 'p');
    assert("host"@.len() == 4 && "port"@.len() == 4);
    assert("previous_provider"@.len() == 17 && "forward_enabled"@.len() == 15);
}

/// Setting a field of the `remote` table keeps what was set in another
/// field, and keeps the table.
proof fn lemma_field_kept(
    before: DocumentMut,
    after: DocumentMut,
    changed: Seq<char>,
    kept: Seq<char>,
)
    requires
        doc_tables(before).contains(seq!["remote"@]),
        same_outside(before, after, remote_path(changed)),
        changed != kept,
    ensures
        doc_tables(after).contains(seq!["remote"@]),
        text_at(after, remote_path(kept)) == text_at(before, remote_path(kept)),
        integer_at(after, remote_path(kept)) == integer_at(before, remote_path(kept)),
        bool_at(after, remote_path(kept)) == bool_at(before, remote_path(kept)),
        text_at(after, default_provider_path()) == text_at(before, default_provider_path()),
        doc_items(after).contains(default_provider_path()) == doc_items(before).contains(
            default_provider_path(),
        ),
{
    lemma_apart(changed, kept);
    lemma_within(changed);
    lemma_kept(before, after, remote_path(changed), remote_path(kept));
    lemma_kept(before, after, remote_path(changed), seq!["remote"@]);
    lemma_kept(before, after, remote_path(changed), default_provider_path());
}

/// Setting the default provider keeps the `remote` table and its fields.
proof fn lemma_remote_kept(before: DocumentMut, after: DocumentMut, kept: Seq<char>)
    requires
        same_outside(before, after, default_provider_path()),
    ensures
        doc_tables(after).contains(seq!["remote"@]) == doc_tables(before).contains(
            seq!["remote"@],
        ),
        doc_items(after).contains(seq!["remote"@]) == doc_items(before).contains(seq!["remote"@]),
        text_at(after, remote_path(kept)) == text_at(before, remote_path(kept)),
        integer_at(after, remote_path(kept)) == integer_at(before, remote_path(kept)),
        bool_at(after, remote_path(kept)) == bool_at(before, remote_path(kept)),
{
    lemma_within(kept);
    lemma_kept(before, after, default_provider_path(), remote_path(kept));
    lemma_kept(before, after, default_provider_path(), seq!["remote"@]);
}

/// Two changes, each within the `remote` table or at the default
/// provider, leave everything else as it was.
proof fn lemma_elsewhere_then(first: DocumentMut, second: DocumentMut, third: DocumentMut)
    requires
        same_elsewhere(first, second),
        same_outside(second, third, seq!["remote"@]) || same_outside(
            second,
            third,
            default_provider_path(),
        ),
    ensures
        same_elsewhere(first, third),
{
    assert forall|other: Seq<Seq<char>>|
        !seq!["remote"@].is_prefix_of(other) && !default_provider_path().is_prefix_of(
            other,
        ) implies #[trigger] same_at(first, third, other) by {
        assert(same_at(first, second, other));
        assert(same_at(second, third, other));
    }
}

/// Switches forwarding on.
fn switch_on(doc: &mut DocumentMut, host: Option<String>, port: Option<u16>, path_display: &str) -> (r:
    Result<ForwardOutcome, NotifallError>)
    ensures
        host_after(*old(doc), host.deep_view()) is None ==> *final(doc) == *old(doc) && (
        r matches Err(NotifallError::RemoteForwardMissingHost(m)) && m@ == missing_host_text(
            path_display@,
        )),
        host_after(*old(doc), host.deep_view()) is Some ==> r == Ok::<
            ForwardOutcome,
            NotifallError,
        >(ForwardOutcome::Switched(true)) && switched_on(
            *old(doc),
            *final(doc),
            host.deep_view(),
            port,
        ),
{
    let settable = remote_is_settable(doc);
    let configured_host = remote_host_from_doc(doc);
    if !((settable && host.is_some()) || configured_host.is_some()) {
        let mut text = String::new();
        append_str(
            &mut text,
            "Remote forwarding needs a remote host.\n\nSet it with:\n  wakedev remote forward on --host mba --port 4280\nor:\n  wakedev config set remote.host mba\n  wakedev config set remote.port 4280\n\nConfig file: ",
        );
        append_str(&mut text, path_display);
        append_str(&mut text, "\nIf missing, run: wakedev config init");
        assert(text@ =~= missing_host_text(path_display@));
        return Err(NotifallError::RemoteForwardMissingHost(text));
    }
    let port_named = (settable && port.is_some()) || remote_port_from_doc(doc).is_some();
    let current = text_in(doc, &path1("default_provider"));
    let ghost d0 = *doc;
    proof {
        lemma_field_names();
        lemma_within("host"@);
        lemma_within("port"@);
        lemma_within("previous_provider"@);
        lemma_within("forward_enabled"@);
    }
    if let Some(h) = host {
        set_remote_field(doc, "host", &ConfigValue::Text(h));
    }
    let ghost d1 = *doc;
    if let Some(p) = port {
        set_remote_field(doc, "port", &ConfigValue::Integer(p as i64));
        proof {
            if doc_tables(d1).contains(seq!["remote"@]) {
                lemma_field_kept(d1, *doc, "port"@, "host"@);
            }
            lemma_same_outside_then(d0, d1, *doc, seq!["remote"@], seq!["remote"@]);
        }
    }
    let ghost d2 = *doc;
    if !port_named {
        set_remote_field(doc, "port", &ConfigValue::Integer(DEFAULT_PORT as i64));
        proof {
            if doc_tables(d2).contains(seq!["remote"@]) {
                lemma_field_kept(d2, *doc, "port"@, "host"@);
            }
            lemma_same_outside_then(d0, d2, *doc, seq!["remote"@], seq!["remote"@]);
        }
    }
    let ghost d3 = *doc;
    if let Some(c) = current {
        if !(*c.as_str() == *"remote") {
            set_remote_field(doc, "previous_provider", &ConfigValue::Text(c));
            proof {
                if doc_tables(d3).contains(seq!["remote"@]) {
                    lemma_field_kept(d3, *doc, "previous_provider"@, "host"@);
                    lemma_field_kept(d3, *doc, "previous_provider"@, "port"@);
                }
                lemma_same_outside_then(d0, d3, *doc, seq!["remote"@], seq!["remote"@]);
            }
        }
    }
    let ghost d4 = *doc;
    set_default_provider(doc, "remote");
    let ghost d5 = *doc;
    proof {
        lemma_remote_kept(d4, d5, "host"@);
        lemma_remote_kept(d4, d5, "port"@);
        lemma_remote_kept(d4, d5, "previous_provider"@);
        assert(same_elsewhere(d0, d4)) by {
            assert forall|other: Seq<Seq<char>>|
                !seq!["remote"@].is_prefix_of(other) && !default_provider_path().is_prefix_of(
                    other,
                ) implies #[trigger] same_at(d0, d4, other) by {
                assert(same_at(d0, d4, other));
            }
        }
        lemma_elsewhere_then(d0, d4, d5);
    }
    set_remote_field(doc, "forward_enabled", &ConfigValue::Bool(true));
    proof {
        if doc_tables(d0).contains(seq!["remote"@]) {
            assert(doc_tables(d1).contains(seq!["remote"@]) && same_outside(
                d0,
                d1,
                remote_path("host"@),
            ));
            assert(doc_tables(d2).contains(seq!["remote"@]) && same_outside(
                d1,
                d2,
                remote_path("port"@),
            ));
            assert(doc_tables(d3).contains(seq!["remote"@]) && same_outside(
                d2,
                d3,
                remote_path("port"@),
            ));
            assert(doc_tables(d4).contains(seq!["remote"@]) && same_outside(
                d3,
                d4,
                remote_path("previous_provider"@),
            ));
            assert(doc_tables(d5).contains(seq!["remote"@]));
            assert forall|other: Seq<Seq<char>>|
                !remote_path("host"@).is_prefix_of(other) && !remote_path("port"@).is_prefix_of(
                    other,
                ) && !remote_path("previous_provider"@).is_prefix_of(other) && !remote_path(
                    "forward_enabled"@,
                ).is_prefix_of(other) && !default_provider_path().is_prefix_of(
                    other,
                ) implies #[trigger] same_at(d0, *doc, other) by {
                assert(same_at(d0, d1, other));
                assert(same_at(d1, d2, other));
                assert(same_at(d2, d3, other));
                assert(same_at(d3, d4, other));
                assert(same_at(d4, d5, other));
                assert(same_at(d5, *doc, other));
            }
        }
        if doc_tables(d5).contains(seq!["remote"@]) {
            lemma_field_kept(d5, *doc, "forward_enabled"@, "host"@);
            lemma_field_kept(d5, *doc, "forward_enabled"@, "port"@);
            lemma_field_kept(d5, *doc, "forward_enabled"@, "previous_provider"@);
        }
        lemma_kept(d5, *doc, seq!["remote"@], default_provider_path());
        lemma_elsewhere_then(d0, d5, *doc);
        if !remote_settable(d0) {
            assert(d4 == d0);
            assert(*doc == d5);
        }
    }
    Ok(ForwardOutcome::Switched(true))
}

/// Switches forwarding off.
fn switch_off(doc: &mut DocumentMut, local_available: bool) -> (r: Result<
    ForwardOutcome,
    NotifallError,
>)
    ensures
        r == Ok::<ForwardOutcome, NotifallError>(ForwardOutcome::Switched(false)),
        switched_off(*old(doc), *final(doc), local_available),
{
    let previous = text_in(doc, &path2("remote", "previous_provider"));
    let ghost d0 = *doc;
    proof {
        lemma_within("forward_enabled"@);
    }
    set_remote_field(doc, "forward_enabled", &ConfigValue::Bool(false));
    let ghost d1 = *doc;
    proof {
        lemma_kept(d0, d1, seq!["remote"@], default_provider_path());
        assert(same_elsewhere(d0, d1)) by {
            assert forall|other: Seq<Seq<char>>|
                !seq!["remote"@].is_prefix_of(other) && !default_provider_path().is_prefix_of(
                    other,
                ) implies #[trigger] same_at(d0, d1, other) by {
                assert(same_at(d0, d1, other));
            }
        }
    }
    match previous {
        Some(p) => {
            if !(*p.as_str() == *"remote") {
                set_default_provider(doc, p.as_str());
                proof {
                    lemma_remote_kept(d1, *doc, "forward_enabled"@);
                    lemma_elsewhere_then(d0, d1, *doc);
                }
            }
        },
        None => {
            if local_available {
                set_default_provider(doc, "macos");
            } else {
                remove_key(doc, "default_provider");
            }
            proof {
                lemma_remote_kept(d1, *doc, "forward_enabled"@);
                lemma_elsewhere_then(d0, d1, *doc);
            }
        },
    }
    proof {
        if doc_tables(d0).contains(seq!["remote"@]) {
            assert forall|other: Seq<Seq<char>>|
                !remote_path("forward_enabled"@).is_prefix_of(other)
                    && !default_provider_path().is_prefix_of(other) implies #[trigger] same_at(
                d0,
                *doc,
                other,
            ) by {
                assert(same_at(d0, d1, other));
                assert(same_at(d1, *doc, other));
            }
        }
    }
    Ok(ForwardOutcome::Switched(false))
}

/// Carries a forwarding command out on the configuration.
pub fn switch_forwarding(
    doc: &mut DocumentMut,
    args: RemoteForwardArgs,
    local_available: bool,
    path_display: &str,
) -> (r: Result<ForwardOutcome, NotifallError>)
    ensures
        forwarded(*old(doc), *final(doc), r, args, local_available, path_display@),
{
    let enabled = forward_enabled(doc);
    let desired = match args.state {
        ForwardState::Status => {
            return Ok(ForwardOutcome::Status(enabled));
        },
        ForwardState::Toggle => !enabled,
        ForwardState::On => true,
        ForwardState::Off => false,
    };
    if desired {
        switch_on(doc, args.host, args.port, path_display)
    } else {
        switch_off(doc, local_available)
    }
}

/// What a forwarding command reports, and the new text of the
/// configuration file where it changed.
#[derive(Debug, Clone, PartialEq)]
pub struct ForwardReport {
    /// The line to print.
    pub line: String,
    /// The text to write, where the command switched.
    pub contents: Option<String>,
}

/// The line that a forwarding command prints.
pub open spec fn report_line(outcome: ForwardOutcome) -> Seq<char> {
    match outcome {
        ForwardOutcome::Status(true) => "on"@,
        ForwardOutcome::Status(false) => "off"@,
        ForwardOutcome::Switched(true) => "remote forwarding enabled"@,
        ForwardOutcome::Switched(false) => "remote forwarding disabled"@,
    }
}

/// Whether `r` carries what a forwarding command made of the document
/// `before`, which is `after` now: an error is the error of the command;
/// a report carries the line of the command's outcome, and the text of
/// `after` wherever the command switched.
pub open spec fn carried(
    r: Result<ForwardReport, NotifallError>,
    before: DocumentMut,
    after: DocumentMut,
    outcome: ForwardOutcome,
    args: RemoteForwardArgs,
    local_available: bool,
    path_display: Seq<char>,
) -> bool {
    match r {
        Err(e) => forwarded(
            before,
            after,
            Err::<ForwardOutcome, NotifallError>(e),
            args,
            local_available,
            path_display,
        ),
        Ok(report) => {
            &&& forwarded(
                before,
                after,
                Ok::<ForwardOutcome, NotifallError>(outcome),
                args,
                local_available,
                path_display,
            )
            &&& report.line@ == report_line(outcome)
            &&& report.contents.deep_view() == if outcome is Switched {
                Some(doc_text(after))
            } else {
                None
            }
        },
    }
}

/// Whether `r` is what a forwarding command makes of the configuration
/// file with the text `existing`: the command is carried out on the
/// document that the text parses to.
pub open spec fn forwarded_text(
    r: Result<ForwardReport, NotifallError>,
    existing: Seq<char>,
    args: RemoteForwardArgs,
    local_available: bool,
    path_display: Seq<char>,
) -> bool {
    exists|before: DocumentMut, after: DocumentMut, outcome: ForwardOutcome| #[trigger]
        carried(r, before, after, outcome, args, local_available, path_display) && holds_text(
            before,
            existing,
        )
}

/// Carries a forwarding command out on the text of the configuration
/// file. A text that is no TOML is an error; so is switching on while no
/// host is known. A command that only asks leaves the file alone.
pub fn handle_remote_forward(
    existing: &str,
    args: RemoteForwardArgs,
    local_available: bool,
    path_display: &str,
) -> (r: Result<ForwardReport, NotifallError>)
    ensures
        r matches Err(NotifallError::ConfigEdit(_)) <==> !toml_parses(existing@),
        toml_parses(existing@) ==> forwarded_text(
            r,
            existing@,
            args,
            local_available,
            path_display@,
        ),
{
    let mut doc = match parse_document(existing) {
        Ok(d) => d,
        Err(e) => {
            return Err(e);
        },
    };
    let ghost before = doc;
    let outcome = match switch_forwarding(&mut doc, args, local_available, path_display) {
        Ok(o) => o,
        Err(e) => {
            proof {
                assert(carried(
                    Err::<ForwardReport, NotifallError>(e),
                    before,
                    doc,
                    ForwardOutcome::Status(false),
                    args,
                    local_available,
                    path_display@,
                ));
            }
            return Err(e);
        },
    };
    let report = match outcome {
        ForwardOutcome::Status(enabled) => ForwardReport {
            line: if enabled {
                "on".to_owned()
            } else {
                "off".to_owned()
            },
            contents: None,
        },
        ForwardOutcome::Switched(enabled) => ForwardReport {
            line: if enabled {
                "remote forwarding enabled".to_owned()
            } else {
                "remote forwarding disabled".to_owned()
            },
            contents: Some(document_text(&doc)),
        },
    };
    assert(carried(
        Ok::<ForwardReport, NotifallError>(report),
        before,
        doc,
        outcome,
        args,
        local_available,
        path_display@,
    ));
    Ok(report)
}

/// Forwarding that is switched on and then off leaves the configuration
/// as it was but for the flag, which is off: the provider that was the
/// default one is the default one again, host and port are as switching
/// on left them, and nothing has changed outside the `remote` table.
pub proof fn lemma_on_then_off(
    start: DocumentMut,
    on: DocumentMut,
    off: DocumentMut,
    host: Option<Seq<char>>,
    port: Option<u16>,
    local_available: bool,
    provider: Seq<char>,
)
    requires
        remote_settable(start),
        text_at(start, default_provider_path()) == Some(provider),
        provider != "remote"@,
        switched_on(start, on, host, port),
        switched_off(on, off, local_available),
    ensures
        text_at(off, default_provider_path()) == Some(provider),
        bool_at(off, remote_path("forward_enabled"@)) == Some(false),
        !enabled_in(off),
        same_at(on, off, remote_path("host"@)),
        same_at(on, off, remote_path("port"@)),
        host is Some ==> text_at(off, remote_path("host"@)) == host,
        port is Some ==> integer_at(off, remote_path("port"@)) == Some(port->0 as i64),
        forall|other: Seq<Seq<char>>|
            !seq!["remote"@].is_prefix_of(other) && !default_provider_path().is_prefix_of(other)
                ==> #[trigger] same_at(start, off, other),
{
    lemma_field_names();
    lemma_apart("forward_enabled"@, "host"@);
    lemma_apart("forward_enabled"@, "port"@);
    lemma_within("host"@);
    lemma_within("port"@);
    assert(same_at(on, off, remote_path("host"@)));
    assert(same_at(on, off, remote_path("port"@)));
    assert forall|other: Seq<Seq<char>>|
        !seq!["remote"@].is_prefix_of(other) && !default_provider_path().is_prefix_of(
            other,
        ) implies #[trigger] same_at(start, off, other) by {
        assert(same_at(start, on, other));
        assert(same_at(on, off, other));
    }
}

} // verus!
