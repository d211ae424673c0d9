//! Hooks of coding agents: what a hook payload becomes as a notification.
//!
//! Payloads are JSON documents kept by `serde_json`. This module names the
//! members that the hooks read, and decides on title and message.

use crate::cli::SendArgs;
use crate::error::NotifallError;
use crate::text::{append_str, chars_of, concat, joined, string_of, trim, trimmed};
use serde_json::Value;
use vstd::prelude::*;

verus! {

/// `serde_json::Value`: a JSON document.
#[verifier::external_type_specification]
#[verifier::external_body]
pub struct ExValue(Value);

/// `serde_json::Error`: why a text is no JSON document.
#[verifier::external_type_specification]
#[verifier::external_body]
pub struct ExJsonError(serde_json::Error);

/// The members of the object `value` that are strings, by key: what
/// `Value::get` with the key and then `Value::as_str` give.
pub uninterp spec fn json_texts(value: Value) -> Map<Seq<char>, Seq<char>>;

/// The members of the object `value` that are arrays, by key: what
/// `Value::get` with the key and then `Value::as_array` give, each element
/// as its text where it is a string (`Value::as_str`).
pub uninterp spec fn json_lists(value: Value) -> Map<Seq<char>, Seq<Option<Seq<char>>>>;

/// Whether `text` is a JSON document: whether `serde_json::from_str`
/// takes it as a `Value`.
pub uninterp spec fn json_parses(text: Seq<char>) -> bool;

/// Whether `bytes` are a JSON document: whether `serde_json::from_slice`
/// takes them as a `Value`.
pub uninterp spec fn json_bytes_parse(bytes: Seq<u8>) -> bool;

/// Whether hooks can be set under the member `key` of `value`: `value` is
/// `null` or an object, and its member `key`, if it has one, is `null` or
/// an object. These are the documents on which `IndexMut` with `key` and
/// then with a second key does not panic.
pub uninterp spec fn json_takes_member(value: Value, key: Seq<char>) -> bool;

/// The hook that `value` holds for an event, as matcher, kind and command,
/// under the keys `keys`: the member `keys[0]` of `value`, its member
/// `event`, the first item of that, and of it the string under `keys[1]`
/// as the matcher; further its member `keys[2]`, the first item of that,
/// and of it the strings under `keys[3]` and `keys[4]` as kind and
/// command. Each step is `Value::get`; the strings are `Value::as_str`.
pub uninterp spec fn json_hook(value: Value, keys: Seq<Seq<char>>, event: Seq<char>) -> Option<
    Seq<Seq<char>>,
>;

/// The document `value` as indented text: what `{:#}` gives.
pub uninterp spec fn json_pretty(value: Value) -> Seq<char>;

/// [`json_takes_member`] of the document that `text` parses to.
pub uninterp spec fn text_takes_member(text: Seq<char>, key: Seq<char>) -> bool;

/// [`json_hook`] of the document that `text` parses to.
pub uninterp spec fn text_hook(text: Seq<char>, keys: Seq<Seq<char>>, event: Seq<char>) -> Option<
    Seq<Seq<char>>,
>;

/// `serde_json::from_str`: reads a JSON document. What the document holds
/// depends on the text alone.
#[verifier::external_body]
pub(crate) fn parse_json(text: &str) -> (r: Result<Value, serde_json::Error>)
    ensures
        r is Ok <==> json_parses(text@),
        r is Ok ==> forall|key: Seq<char>| #[trigger]
            json_takes_member(r->Ok_0, key) == text_takes_member(text@, key),
        r is Ok ==> forall|keys: Seq<Seq<char>>, event: Seq<char>| #[trigger]
            json_hook(r->Ok_0, keys, event) == text_hook(text@, keys, event),
{
    serde_json::from_str::<Value>(text)
}

/// `serde_json::from_slice`: reads a JSON document from bytes.
#[verifier::external_body]
pub(crate) fn parse_json_bytes(bytes: &[u8]) -> (r: Result<Value, serde_json::Error>)
    ensures
        r is Ok <==> json_bytes_parse(bytes@),
{
    serde_json::from_slice::<Value>(bytes)
}

/// Whether `value` has no member that is a string or an array.
pub open spec fn without_members(value: Value) -> bool {
    &&& json_texts(value) == Map::<Seq<char>, Seq<char>>::empty()
    &&& json_lists(value) == Map::<Seq<char>, Seq<Option<Seq<char>>>>::empty()
}

/// `Value::Null`: the JSON document `null`, which has no members.
#[verifier::external_body]
pub(crate) fn json_null() -> (r: Value)
    ensures
        without_members(r),
{
    Value::Null
}

/// `serde_json::Error::to_string`: the error as text.
#[verifier::external_body]
pub(crate) fn json_error_text(error: &serde_json::Error) -> (r: String) {
    error.to_string()
}

/// `Value::get` with `key`, then `Value::as_str`.
#[verifier::external_body]
pub(crate) fn member_text(value: &Value, key: &str) -> (r: Option<String>)
    ensures
        match r {
            Some(t) => json_texts(*value).contains_key(key@) && json_texts(*value)[key@] == t@,
            None => !json_texts(*value).contains_key(key@),
        },
{
    value.get(key).and_then(|member| member.as_str()).map(|text| text.to_string())
}

/// `Value::get` with `key`, then `Value::as_array`, then `Value::as_str`
/// on each element.
#[verifier::external_body]
pub(crate) fn member_list(value: &Value, key: &str) -> (r: Option<Vec<Option<String>>>)
    ensures
        match r {
            Some(items) => json_lists(*value).contains_key(key@) && json_lists(*value)[key@]
                == items.deep_view(),
            None => !json_lists(*value).contains_key(key@),
        },
{
    value.get(key).and_then(|member| member.as_array()).map(
        |items| items.iter().map(|item| item.as_str().map(|text| text.to_string())).collect(),
    )
}

/// `Value::is_null`, `Value::is_object` and `Value::get`: whether hooks
/// can be set under the member `key`.
#[verifier::external_body]
pub(crate) fn takes_member(value: &Value, key: &str) -> (r: bool)
    ensures
        r == json_takes_member(*value, key@),
{
    (value.is_null() || value.is_object()) && value.get(key).map_or(
        true,
        |member| member.is_null() || member.is_object(),
    )
}

/// Assigns, with `IndexMut` of `Value`, a list of one hook under the
/// member `keys[0]` and there under `event`: an object with `matcher`
/// under `keys[1]` and, under `keys[2]`, a list of one object with `kind`
/// under `keys[3]` and `command` under `keys[4]`. Afterwards the document
/// holds that hook for the event; the hooks of other events are as they
/// were.
#[verifier::external_body]
pub(crate) fn put_hook(
    value: &mut Value,
    keys: &[String],
    event: &str,
    matcher: &str,
    kind: &str,
    command: &str,
)
    requires
        keys@.len() == 5,
        json_takes_member(*old(value), keys@[0]@),
        keys@[1]@ != keys@[2]@,
        keys@[3]@ != keys@[4]@,
    ensures
        json_hook(*final(value), keys.deep_view(), event@) == Some(
            seq![matcher@, kind@, command@],
        ),
        json_takes_member(*final(value), keys@[0]@),
        forall|other: Seq<char>|
            other != event@ ==> #[trigger] json_hook(*final(value), keys.deep_view(), other)
                == json_hook(*old(value), keys.deep_view(), other),
{
    let mut hook = serde_json::Map::new();
    hook.insert(keys[3].clone(), Value::from(kind));
    hook.insert(keys[4].clone(), Value::from(command));
    let mut entry = serde_json::Map::new();
    entry.insert(keys[1].clone(), Value::from(matcher));
    entry.insert(keys[2].clone(), Value::Array(vec![Value::Object(hook)]));
    value[keys[0].as_str()][event] = Value::Array(vec![Value::Object(entry)]);
}

/// `{:#}` of `Value`: the document as indented text.
#[verifier::external_body]
pub(crate) fn pretty_json(value: &Value) -> (r: String)
    ensures
        r@ == json_pretty(*value),
{
    format!("{:#}", value)
}

/// Where the payload of a hook comes from.
#[derive(Debug, Clone, PartialEq)]
pub enum HookInput {
    /// It was given on the command line.
    Argument(String),
    /// It was read from standard input.
    Stream(Vec<u8>),
}

/// Reads the payload of a hook. Nothing on standard input stands for the
/// document `null`; anything else must be JSON.
pub fn read_hook_payload(input: &HookInput) -> (r: Result<Value, NotifallError>)
    ensures
        r is Ok <==> match input {
            HookInput::Argument(raw) => json_parses(raw@),
            HookInput::Stream(bytes) => bytes@.len() == 0 || json_bytes_parse(bytes@),
        },
        r is Err ==> r->Err_0 is Json,
        input matches HookInput::Stream(bytes) && bytes@.len() == 0 ==> r is Ok
            && without_members(r->Ok_0),
{
    let parsed = match input {
        HookInput::Argument(raw) => parse_json(raw.as_str()),
        HookInput::Stream(bytes) => {
            if bytes.len() == 0 {
                return Ok(json_null());
            }
            parse_json_bytes(bytes.as_slice())
        },
    };
    match parsed {
        Ok(value) => Ok(value),
        Err(e) => Err(NotifallError::Json(json_error_text(&e))),
    }
}

/// The number of bytes that `s` takes in UTF-8.
pub open spec fn byte_len(s: Seq<char>) -> nat {
    vstd::utf8::encode_utf8(s).len()
}

/// `s` cut to fit `max_len`: a text of at most `max_len` bytes is kept;
/// of a longer one the first `max_len - 3` characters are kept, and three
/// dots follow.
pub open spec fn truncated(s: Seq<char>, max_len: nat) -> Seq<char> {
    if byte_len(s) <= max_len {
        s
    } else {
        let keep = if max_len >= 3 {
            max_len - 3
        } else {
            0
        };
        (if keep < s.len() {
            s.take(keep)
        } else {
            s
        }) + "..."@
    }
}

/// Cuts a text to fit `max_len`.
pub fn truncate_to(value: String, max_len: usize) -> (r: String)
    ensures
        r@ == truncated(value@, max_len as nat),
{
    if value.as_str().as_bytes().len() <= max_len {
        return value;
    }
    let take_len: usize = if max_len >= 3 {
        max_len - 3
    } else {
        0
    };
    let cs = chars_of(value.as_str());
    let kept: usize = if take_len < cs.len() {
        take_len
    } else {
        cs.len()
    };
    let mut out = String::new();
    crate::text::append_range(&mut out, cs.as_slice(), 0, kept);
    append_str(&mut out, "...");
    proof {
        assert(cs@.subrange(0, kept as int) =~= if take_len < cs@.len() {
            cs@.take(take_len as int)
        } else {
            cs@
        });
    }
    assert(out@ =~= truncated(value@, max_len as nat));
    out
}

/// Cuts a title to 120 and a message to 300.
pub fn truncate_message(title: String, message: String) -> (r: (String, String))
    ensures
        r.0@ == truncated(title@, 120),
        r.1@ == truncated(message@, 300),
{
    (truncate_to(title, 120), truncate_to(message, 300))
}

/// The items of a list that are texts, in order.
pub open spec fn texts_of(items: Seq<Option<Seq<char>>>) -> Seq<Seq<char>>
    decreases items.len(),
{
    if items.len() == 0 {
        Seq::empty()
    } else if items.last() is Some {
        texts_of(items.drop_last()).push(items.last()->0)
    } else {
        texts_of(items.drop_last())
    }
}

/// The texts among `items`, joined by single spaces.
fn join_texts(items: &Vec<Option<String>>) -> (r: Vec<char>)
    ensures
        r@ == joined(texts_of(items.deep_view()), " "@),
{
    let mut out: Vec<char> = Vec::new();
    let ghost all = items.deep_view();
    let mut seen: usize = 0;
    let mut i: usize = 0;
    let space = chars_of(" ");
    assert(all.take(0) =~= Seq::<Option<Seq<char>>>::empty());
    while i < items.len()
        invariant
            i <= items@.len(),
            all == items.deep_view(),
            space@ == " "@,
            seen <= i,
            seen == texts_of(all.take(i as int)).len(),
            out@ == joined(texts_of(all.take(i as int)), " "@),
        decreases items.len() - i,
    {
        proof {
            assert(all.take(i + 1).drop_last() =~= all.take(i as int));
            assert(all.take(i + 1).last() == all[i as int]);
        }
        match &items[i] {
            Some(text) => {
                let ghost before = texts_of(all.take(i as int));
                let ghost after = texts_of(all.take(i + 1));
                let mut piece = chars_of(text.as_str());
                proof {
                    assert(all[i as int] == Some(text@));
                    assert(after =~= before.push(text@));
                    assert(after.drop_last() =~= before);
                }
                if seen > 0 {
                    let mut sep = chars_of(" ");
                    out.append(&mut sep);
                    out.append(&mut piece);
                } else {
                    assert(before.len() == 0);
                    assert(out@ =~= Seq::<char>::empty());
                    out.append(&mut piece);
                }
                seen += 1;
            },
            None => {},
        }
        i += 1;
    }
    assert(all.take(i as int) =~= all);
    out
}

/// Whether `args` sends `title` and `message` for `source` in the
/// background, with the focus command of `exe` as the click command, and
/// sets nothing else.
pub open spec fn hook_send(
    args: SendArgs,
    title: Seq<char>,
    message: Seq<char>,
    source: Seq<char>,
    exe: Seq<char>,
) -> bool {
    &&& args.title is Some && args.title->0@ == title
    &&& args.message@ == message
    &&& args.source is Some && args.source->0@ == source
    &&& args.on_click is Some && args.on_click->0@ == exe + " focus"@
    &&& args.background
    &&& !args.wait_for_click && !args.json && !args.no_icon && !args.silent && !args.no_fallback
        && !args.telegram_silent
    &&& args.icon is None && args.link is None && args.sound is None && args.urgency is None
        && args.tag is None && args.provider is None
    &&& args.telegram_token is None && args.telegram_chat_id is None && args.telegram_parse_mode
        is None
    &&& args.remote_host is None && args.remote_port is None && args.remote_token is None
        && args.remote_timeout_ms is None && args.remote_retries is None
}

fn hook_args(title: String, message: String, source: &str, exe: &str) -> (r: SendArgs)
    ensures
        hook_send(r, title@, message@, source@, exe@),
{
    SendArgs {
        title: Some(title),
        message,
        icon: None,
        no_icon: false,
        link: None,
        sound: None,
        silent: false,
        telegram_token: None,
        telegram_chat_id: None,
        telegram_parse_mode: None,
        telegram_silent: false,
        urgency: None,
        tag: None,
        source: Some(source.to_owned()),
        on_click: Some(concat(exe, " focus")),
        wait_for_click: false,
        background: true,
        json: false,
        provider: None,
        remote_host: None,
        remote_port: None,
        remote_token: None,
        remote_timeout_ms: None,
        remote_retries: None,
        no_fallback: false,
    }
}

/// The member `key` of `texts`, where there is one.
pub open spec fn member(texts: Map<Seq<char>, Seq<char>>, key: Seq<char>) -> Option<Seq<char>> {
    if texts.contains_key(key) {
        Some(texts[key])
    } else {
        None
    }
}

fn text_member(payload: &Value, key: &str) -> (r: Option<String>)
    ensures
        r.deep_view() == member(json_texts(*payload), key@),
{
    member_text(payload, key)
}

/// `text`, or a single space where it is empty.
pub open spec fn or_space(text: Seq<char>) -> Seq<char> {
    if text.len() == 0 {
        " "@
    } else {
        text
    }
}

/// What the payload of a Codex hook says, as far as it is read.
#[derive(Debug, Clone, PartialEq)]
pub struct CodexEvent {
    /// The member `type`.
    pub kind: Option<String>,
    /// The member `last-assistant-message`.
    pub last_assistant_message: Option<String>,
    /// The member `input_messages`, each item as its text where it is one.
    pub input_messages: Option<Vec<Option<String>>>,
}

/// Reads what a Codex hook decides on.
pub fn read_codex_event(payload: &Value) -> (r: CodexEvent)
    ensures
        r.kind.deep_view() == member(json_texts(*payload), "type"@),
        r.last_assistant_message.deep_view() == member(
            json_texts(*payload),
            "last-assistant-message"@,
        ),
        r.input_messages.deep_view() == if json_lists(*payload).contains_key("input_messages"@) {
            Some(json_lists(*payload)["input_messages"@])
        } else {
            None
        },
{
    CodexEvent {
        kind: text_member(payload, "type"),
        last_assistant_message: text_member(payload, "last-assistant-message"),
        input_messages: member_list(payload, "input_messages"),
    }
}

/// The title of the notification for a finished Codex turn.
pub open spec fn codex_title(last_assistant_message: Option<Seq<char>>) -> Seq<char> {
    truncated(
        match last_assistant_message {
            Some(m) => "Codex: "@ + m,
            None => "Codex: Turn Complete"@,
        },
        120,
    )
}

/// The message of the notification for a finished Codex turn: the input
/// messages that are texts, joined by spaces and trimmed.
pub open spec fn codex_message(input_messages: Option<Seq<Option<Seq<char>>>>) -> Seq<char> {
    truncated(
        or_space(
            trimmed(
                match input_messages {
                    Some(items) => joined(texts_of(items), " "@),
                    None => Seq::empty(),
                },
            ),
        ),
        300,
    )
}

/// Makes the send for a Codex event. Only a finished turn is notified of.
pub fn codex_send(event: CodexEvent, exe: &str) -> (r: Option<SendArgs>)
    ensures
        r is Some <==> event.kind.deep_view() == Some("agent-turn-complete"@),
        r is Some ==> hook_send(
            r->0,
            codex_title(event.last_assistant_message.deep_view()),
            codex_message(event.input_messages.deep_view()),
            "codex"@,
            exe@,
        ),
{
    match &event.kind {
        Some(kind) => {
            if !(*kind.as_str() == *"agent-turn-complete") {
                return None;
            }
        },
        None => {
            return None;
        },
    }
    let title = match &event.last_assistant_message {
        Some(m) => concat("Codex: ", m.as_str()),
        None => "Codex: Turn Complete".to_owned(),
    };
    let joined_messages = match &event.input_messages {
        Some(items) => join_texts(items),
        None => Vec::new(),
    };
    let trimmed_messages = trim(joined_messages.as_slice());
    let message = if trimmed_messages.len() == 0 {
        " ".to_owned()
    } else {
        string_of(trimmed_messages.as_slice())
    };
    let (title, message) = truncate_message(title, message);
    Some(hook_args(title, message, "codex", exe))
}

/// Makes the send for the payload of a Codex hook.
pub fn handle_codex_hook(payload: &Value, exe: &str) -> (r: Option<SendArgs>)
    ensures
        r is Some <==> member(json_texts(*payload), "type"@) == Some("agent-turn-complete"@),
        r is Some ==> hook_send(
            r->0,
            codex_title(member(json_texts(*payload), "last-assistant-message"@)),
            codex_message(
                if json_lists(*payload).contains_key("input_messages"@) {
                    Some(json_lists(*payload)["input_messages"@])
                } else {
                    None
                },
            ),
            "codex"@,
            exe@,
        ),
{
    codex_send(read_codex_event(payload), exe)
}

/// What the payload of an agent's hook says, as far as it is read.
#[derive(Debug, Clone, PartialEq)]
pub struct AgentEvent {
    pub hook_event_name: Option<String>,
    pub message: Option<String>,
    pub prompt: Option<String>,
    pub notification_type: Option<String>,
    pub tool_name: Option<String>,
}

/// Reads what an agent's hook decides on.
pub fn read_agent_event(payload: &Value) -> (r: AgentEvent)
    ensures
        r.hook_event_name.deep_view() == member(json_texts(*payload), "hook_event_name"@),
        r.message.deep_view() == member(json_texts(*payload), "message"@),
        r.prompt.deep_view() == member(json_texts(*payload), "prompt"@),
        r.notification_type.deep_view() == member(json_texts(*payload), "notification_type"@),
        r.tool_name.deep_view() == member(json_texts(*payload), "tool_name"@),
{
    AgentEvent {
        hook_event_name: text_member(payload, "hook_event_name"),
        message: text_member(payload, "message"),
        prompt: text_member(payload, "prompt"),
        notification_type: text_member(payload, "notification_type"),
        tool_name: text_member(payload, "tool_name"),
    }
}

/// The first of two optional texts that is there, or `fallback`.
pub open spec fn first_text(a: Option<Seq<char>>, b: Option<Seq<char>>, fallback: Seq<char>) -> Seq<
    char,
> {
    match a {
        Some(t) => t,
        None => match b {
            Some(t) => t,
            None => fallback,
        },
    }
}

/// The title of the notification for an agent's event. A notification is
/// titled by its kind, the end of a task or subtask as `finished`, any
/// other event by its name.
pub open spec fn agent_title(
    label: Seq<char>,
    hook_event_name: Option<Seq<char>>,
    notification_type: Option<Seq<char>>,
) -> Seq<char> {
    let name = first_text(hook_event_name, None, "Unknown"@);
    truncated(
        if name == "Notification"@ {
            label + ": "@ + first_text(notification_type, None, "notification"@)
        } else if name == "Stop"@ || name == "SubagentStop"@ {
            label + ": finished"@
        } else {
            label + ": "@ + name
        },
        120,
    )
}

/// The message of the notification for an agent's event: its message,
/// else its prompt; at the end of a task, `Task completed` where there is
/// neither; else the name of the tool; else a single space.
pub open spec fn agent_message(
    hook_event_name: Option<Seq<char>>,
    message: Option<Seq<char>>,
    prompt: Option<Seq<char>>,
    tool_name: Option<Seq<char>>,
) -> Seq<char> {
    let name = first_text(hook_event_name, None, "Unknown"@);
    let given = first_text(message, prompt, Seq::empty());
    let said = if (name == "Stop"@ || name == "SubagentStop"@) && given.len() == 0 {
        "Task completed"@
    } else {
        given
    };
    truncated(
        if said.len() == 0 {
            first_text(tool_name, None, " "@)
        } else {
            said
        },
        300,
    )
}

/// Makes the send for an event of the agent that goes by `label` and is
/// configured as the source `source`.
pub fn agent_send(label: &str, source: &str, event: AgentEvent, exe: &str) -> (r: SendArgs)
    ensures
        hook_send(
            r,
            agent_title(
                label@,
                event.hook_event_name.deep_view(),
                event.notification_type.deep_view(),
            ),
            agent_message(
                event.hook_event_name.deep_view(),
                event.message.deep_view(),
                event.prompt.deep_view(),
                event.tool_name.deep_view(),
            ),
            source@,
            exe@,
        ),
{
    let name = match &event.hook_event_name {
        Some(e) => e.clone(),
        None => "Unknown".to_owned(),
    };
    let mut message = match &event.message {
        Some(m) => m.clone(),
        None => match &event.prompt {
            Some(p) => p.clone(),
            None => String::new(),
        },
    };
    proof {
        reveal_strlit("Notification");
        reveal_strlit("Stop");
        reveal_strlit("SubagentStop");
        reveal_strlit("Task completed");
        reveal_strlit(" ");
        assert("Notification"@.len() == 12 && "Stop"@.len() == 4 && "SubagentStop"@.len() == 12);
        assert("Task completed"@.len() > 0 && " "@.len() > 0);
        assert("Notification"@[0] == 'N' && "SubagentStop"@[0] == 'S');
    }
    let mut title = String::new();
    append_str(&mut title, label);
    if *name.as_str() == *"Notification" {
        let kind = match &event.notification_type {
            Some(k) => k.clone(),
            None => "notification".to_owned(),
        };
        append_str(&mut title, ": ");
        append_str(&mut title, kind.as_str());
    } else if *name.as_str() == *"Stop" || *name.as_str() == *"SubagentStop" {
        if message.as_str().unicode_len() == 0 {
            message = "Task completed".to_owned();
        }
        append_str(&mut title, ": finished");
    } else {
        append_str(&mut title, ": ");
        append_str(&mut title, name.as_str());
    }
    let ghost given = first_text(
        event.message.deep_view(),
        event.prompt.deep_view(),
        Seq::empty(),
    );
    assert(message@ == if (name@ == "Stop"@ || name@ == "SubagentStop"@) && given.len() == 0 {
        "Task completed"@
    } else {
        given
    });
    if message.as_str().unicode_len() == 0 {
        message = match &event.tool_name {
            Some(t) => t.clone(),
            None => " ".to_owned(),
        };
    }
    assert(title@ =~= {
        if name@ == "Notification"@ {
            label@ + ": "@ + first_text(event.notification_type.deep_view(), None, "notification"@)
        } else if name@ == "Stop"@ || name@ == "SubagentStop"@ {
            label@ + ": finished"@
        } else {
            label@ + ": "@ + name@
        }
    });
    let (title, message) = truncate_message(title, message);
    hook_args(title, message, source, exe)
}

/// Makes the send for the payload of an agent's hook.
pub fn handle_agent_hook(label: &str, source: &str, payload: &Value, exe: &str) -> (r: SendArgs)
    ensures
        hook_send(
            r,
            agent_title(
                label@,
                member(json_texts(*payload), "hook_event_name"@),
                member(json_texts(*payload), "notification_type"@),
            ),
            agent_message(
                member(json_texts(*payload), "hook_event_name"@),
                member(json_texts(*payload), "message"@),
                member(json_texts(*payload), "prompt"@),
                member(json_texts(*payload), "tool_name"@),
            ),
            source@,
            exe@,
        ),
{
    agent_send(label, source, read_agent_event(payload), exe)
}

/// The keys under which an agent's settings hold a hook: `hooks`, then the
/// event; in the hook `matcher` and `hooks`, and there `type` and
/// `command`.
pub open spec fn hook_keys() -> Seq<Seq<char>> {
    seq!["hooks"@, "matcher"@, "hooks"@, "type"@, "command"@]
}

/// The hook that calls `command`: it matches everything and is of the kind
/// `command`.
pub open spec fn command_hook(command: Seq<char>) -> Option<Seq<Seq<char>>> {
    Some(seq![Seq::empty(), "command"@, command])
}

/// Whether `text` is the settings `existing` with hooks installed that
/// call `command`: the document that `existing` parses to, with the hook
/// set for notifications and for the end of a task, is written out as
/// `text`; the hooks of other events are as they were.
pub open spec fn hooks_installed(existing: Seq<char>, text: Seq<char>, command: Seq<char>) -> bool {
    exists|after: Value| #[trigger]
        json_pretty(after) == text && json_hook(after, hook_keys(), "Notification"@)
            == command_hook(command) && json_hook(after, hook_keys(), "Stop"@) == command_hook(
            command,
        ) && forall|event: Seq<char>|
            event != "Notification"@ && event != "Stop"@ ==> #[trigger] json_hook(
                after,
                hook_keys(),
                event,
            ) == text_hook(existing, hook_keys(), event)
}

/// Installs in an agent's settings the hooks that call `command`: for
/// notifications and for the end of a task. Settings that are no JSON, or
/// that cannot hold hooks, are an error.
pub fn install_hooks(existing: &str, command: &str) -> (r: Result<String, NotifallError>)
    ensures
        r is Ok <==> json_parses(existing@) && text_takes_member(existing@, "hooks"@),
        r is Err ==> r->Err_0 is Json,
        r is Ok ==> hooks_installed(existing@, r->Ok_0@, command@),
{
    let mut settings = match parse_json(existing) {
        Ok(value) => value,
        Err(e) => {
            return Err(NotifallError::Json(json_error_text(&e)));
        },
    };
    if !takes_member(&settings, "hooks") {
        return Err(NotifallError::Json("settings cannot hold hooks".to_owned()));
    }
    let mut keys: Vec<String> = Vec::new();
    keys.push("hooks".to_owned());
    keys.push("matcher".to_owned());
    keys.push("hooks".to_owned());
    keys.push("type".to_owned());
    keys.push("command".to_owned());
    proof {
        reveal_strlit("hooks");
        reveal_strlit("matcher");
        reveal_strlit("type");
        reveal_strlit("command");
        reveal_strlit("Notification");
        reveal_strlit("Stop");
        reveal_strlit("");
        assert("hooks"@.len() == 5 && "matcher"@.len() == 7);
        assert("type"@.len() == 4 && "command"@.len() == 7);
        assert("Notification"@.len() == 12 && "Stop"@.len() == 4);
        assert(""@ =~= Seq::<char>::empty());
        assert(keys.deep_view() =~= hook_keys());
    }
    let ghost before = settings;
    put_hook(&mut settings, keys.as_slice(), "Notification", "", "command", command);
    let ghost middle = settings;
    put_hook(&mut settings, keys.as_slice(), "Stop", "", "command", command);
    proof {
        assert(json_hook(settings, hook_keys(), "Notification"@) == json_hook(
            middle,
            hook_keys(),
            "Notification"@,
        ));
        assert forall|event: Seq<char>|
            event != "Notification"@ && event != "Stop"@ implies #[trigger] json_hook(
            settings,
            hook_keys(),
            event,
        ) == text_hook(existing@, hook_keys(), event) by {
            assert(json_hook(settings, hook_keys(), event) == json_hook(middle, hook_keys(), event));
            assert(json_hook(middle, hook_keys(), event) == json_hook(before, hook_keys(), event));
        }
    }
    Ok(pretty_json(&settings))
}

} // verus!
