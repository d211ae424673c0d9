//! Bringing the terminal and the tmux pane of a notification to the front.

use crate::cli::FocusArgs;
use crate::listener::first_of;
use crate::text::{append_str, chars_of, eq_fold, eq_ignore_ascii_case};
use vstd::prelude::*;

verus! {

/// The application that a terminal goes by, as the terminal names itself.
/// Names are compared without regard to ASCII case.
pub open spec fn terminal_app(name: Seq<char>) -> Option<Seq<char>> {
    if eq_fold(name, "ghostty"@) {
        Some("Ghostty"@)
    } else if eq_fold(name, "iterm"@) || eq_fold(name, "iterm.app"@) {
        Some("iTerm"@)
    } else if eq_fold(name, "terminal"@) || eq_fold(name, "apple_terminal"@) || eq_fold(
        name,
        "apple_terminal.app"@,
    ) {
        Some("Terminal"@)
    } else {
        None
    }
}

/// The script that brings `app` to the front.
pub open spec fn activation_script(app: Seq<char>) -> Seq<char> {
    "tell application \""@ + app + "\" to activate"@
}

fn known_app(name: &str) -> (r: Option<&'static str>)
    ensures
        match terminal_app(name@) {
            Some(app) => r is Some && r->0@ == app,
            None => r is None,
        },
{
    let cs = chars_of(name);
    if eq_ignore_ascii_case(cs.as_slice(), chars_of("ghostty").as_slice()) {
        Some("Ghostty")
    } else if eq_ignore_ascii_case(cs.as_slice(), chars_of("iterm").as_slice())
        || eq_ignore_ascii_case(cs.as_slice(), chars_of("iterm.app").as_slice()) {
        Some("iTerm")
    } else if eq_ignore_ascii_case(cs.as_slice(), chars_of("terminal").as_slice())
        || eq_ignore_ascii_case(cs.as_slice(), chars_of("apple_terminal").as_slice())
        || eq_ignore_ascii_case(cs.as_slice(), chars_of("apple_terminal.app").as_slice()) {
        Some("Terminal")
    } else {
        None
    }
}

/// The script to run so that the terminal comes to the front: one for a
/// terminal that is known, on macOS; none otherwise.
pub fn activate_terminal(terminal: Option<&str>, on_macos: bool) -> (r: Option<String>)
    ensures
        match terminal {
            Some(name) if on_macos && terminal_app(name@) is Some => r is Some && r->0@
                == activation_script(terminal_app(name@)->0),
            _ => r is None,
        },
{
    if !on_macos {
        return None;
    }
    let name = match terminal {
        Some(n) => n,
        None => {
            return None;
        },
    };
    match known_app(name) {
        Some(app) => {
            let mut script = String::new();
            append_str(&mut script, "tell application \"");
            append_str(&mut script, app);
            append_str(&mut script, "\" to activate");
            assert(script@ =~= activation_script(app@));
            Some(script)
        },
        None => None,
    }
}

/// What the environment says about where a click came from.
#[derive(Debug, Clone, PartialEq)]
pub struct FocusEnv {
    /// The terminal application that was recorded with the notification.
    pub terminal_app: Option<String>,
    /// The terminal program that this process runs in.
    pub term_program: Option<String>,
    pub tmux_session: Option<String>,
    pub tmux_window: Option<String>,
    pub tmux_pane: Option<String>,
}

/// One call of tmux: `tmux <verb> -t <target>`.
#[derive(Debug, Clone, PartialEq)]
pub struct TmuxCommand {
    pub verb: &'static str,
    pub target: String,
}

/// What focusing does.
#[derive(Debug, Clone, PartialEq)]
pub struct FocusPlan {
    /// The script that brings the terminal to the front.
    pub script: Option<String>,
    /// The calls of tmux to make, in order.
    pub tmux: Vec<TmuxCommand>,
}

/// One call of tmux, where there is a target.
pub open spec fn tmux_call(verb: Seq<char>, target: Option<String>) -> Seq<(Seq<char>, String)> {
    match target {
        Some(t) => seq![(verb, t)],
        None => seq![],
    }
}

/// The calls of a list of commands.
pub open spec fn calls_of(commands: Seq<TmuxCommand>) -> Seq<(Seq<char>, String)> {
    Seq::new(commands.len(), |i: int| (commands[i].verb@, commands[i].target))
}

fn push_call(commands: &mut Vec<TmuxCommand>, verb: &'static str, target: Option<String>)
    ensures
        calls_of(final(commands)@) == calls_of(old(commands)@) + tmux_call(verb@, target),
{
    match target {
        Some(t) => {
            commands.push(TmuxCommand { verb, target: t });
            assert(calls_of(commands@) =~= calls_of(old(commands)@) + tmux_call(verb@, target));
        },
        None => {
            assert(calls_of(commands@) =~= calls_of(old(commands)@) + tmux_call(verb@, target));
        },
    }
}

fn as_text(s: &Option<String>) -> (r: Option<&str>)
    ensures
        match r {
            Some(t) => *s is Some && t@ == s->0@,
            None => *s is None,
        },
{
    match s {
        Some(v) => Some(v.as_str()),
        None => None,
    }
}

/// Decides what focusing does. What the command line gives wins over the
/// environment. Unless activation is switched off, the terminal is brought
/// to the front; then tmux switches to the session, the window and the
/// pane, as far as they are known.
pub fn handle_focus(args: FocusArgs, env: FocusEnv, on_macos: bool) -> (r: FocusPlan)
    ensures
        ({
            let terminal = first_of(
                first_of(args.terminal, env.terminal_app),
                env.term_program,
            );
            match terminal {
                Some(name) if !args.no_activate && on_macos && terminal_app(name@) is Some =>
                    r.script is Some && r.script->0@ == activation_script(
                        terminal_app(name@)->0,
                    ),
                _ => r.script is None,
            }
        }),
        calls_of(r.tmux@) == tmux_call(
            "switch-client"@,
            first_of(args.tmux_session, env.tmux_session),
        ) + tmux_call("select-window"@, first_of(args.tmux_window, env.tmux_window)) + tmux_call(
            "select-pane"@,
            first_of(args.tmux_pane, env.tmux_pane),
        ),
{
    let terminal = match args.terminal {
        Some(t) => Some(t),
        None => match env.terminal_app {
            Some(t) => Some(t),
            None => env.term_program,
        },
    };
    let script = if args.no_activate {
        None
    } else {
        activate_terminal(as_text(&terminal), on_macos)
    };
    let session = match args.tmux_session {
        Some(s) => Some(s),
        None => env.tmux_session,
    };
    let window = match args.tmux_window {
        Some(w) => Some(w),
        None => env.tmux_window,
    };
    let pane = match args.tmux_pane {
        Some(p) => Some(p),
        None => env.tmux_pane,
    };
    let mut tmux: Vec<TmuxCommand> = Vec::new();
    assert(calls_of(tmux@) =~= Seq::empty());
    push_call(&mut tmux, "switch-client", session);
    push_call(&mut tmux, "select-window", window);
    push_call(&mut tmux, "select-pane", pane);
    assert(calls_of(tmux@) =~= tmux_call("switch-client"@, session) + tmux_call(
        "select-window"@,
        window,
    ) + tmux_call("select-pane"@, pane));
    FocusPlan { script, tmux }
}

} // verus!
