//! The handoff between a foreground send and its detached waiter.

use crate::config::MacosConfig;
use crate::context::Context;
use crate::notification::Notification;
use crate::provider::SendOptions;
use crate::text::{append_decimal, append_str, decimal};
use vstd::prelude::*;

verus! {

/// Everything the detached waiter needs: written once by the foreground
/// process, read once by the waiter.
#[derive(Debug, Clone, PartialEq)]
pub struct WaitPayload {
    pub notification: Notification,
    pub macos: Option<MacosConfig>,
    pub on_click: Option<String>,
    pub context: Option<Context>,
}

/// The name of the handoff file of process `pid` at `millis` milliseconds
/// since the epoch.
pub open spec fn payload_file_name_text(pid: u32, millis: u128) -> Seq<char> {
    "wakedev-payload-"@ + decimal(pid as nat) + "-"@ + decimal(millis as nat) + ".json"@
}

/// The name of the handoff file: it holds the process id and the time in
/// milliseconds, so that two sends do not collide.
pub fn payload_file_name(pid: u32, millis: u128) -> (r: String)
    ensures
        r@ == payload_file_name_text(pid, millis),
{
    let mut out = String::new();
    append_str(&mut out, "wakedev-payload-");
    append_decimal(&mut out, pid as u128);
    append_str(&mut out, "-");
    append_decimal(&mut out, millis);
    append_str(&mut out, ".json");
    assert(out@ =~= payload_file_name_text(pid, millis));
    out
}

/// The arguments with which the program starts its detached waiter on the
/// handoff file at `payload_path`.
pub fn waiter_arguments(payload_path: &str) -> (r: Vec<String>)
    ensures
        r.deep_view() == seq!["wait-macos"@, "--payload"@, payload_path@],
{
    let mut arguments: Vec<String> = Vec::new();
    arguments.push("wait-macos".to_owned());
    arguments.push("--payload".to_owned());
    arguments.push(payload_path.to_owned());
    assert(arguments.deep_view() =~= seq!["wait-macos"@, "--payload"@, payload_path@]);
    arguments
}

impl WaitPayload {
    /// How the detached waiter calls the provider: it waits for a click,
    /// as the foreground send would have.
    pub fn options(&self) -> (r: SendOptions)
        ensures
            r.wait_for_click,
    {
        SendOptions { wait_for_click: true }
    }
}

} // verus!
