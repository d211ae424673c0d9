//! Session context captured at notify time and replayed at click time.

use vstd::prelude::*;

verus! {

/// The tmux pane a notification came from.
#[derive(Debug, PartialEq)]
pub struct TmuxContext {
    pub session: String,
    pub window: String,
    pub pane: String,
    pub client: String,
}

/// The terminal application a notification came from.
#[derive(Debug, PartialEq)]
pub struct TerminalContext {
    pub app: Option<String>,
}

/// Where a notification came from. It only serves to build the environment
/// of a later click command.
#[derive(Debug, PartialEq)]
pub struct Context {
    pub tmux: Option<TmuxContext>,
    pub terminal: Option<TerminalContext>,
}

/// The tmux facts as they were found, each on its own.
#[derive(Debug, Clone, PartialEq)]
pub struct TmuxFacts {
    pub session: Option<String>,
    pub window: Option<String>,
    pub pane: Option<String>,
    pub client: Option<String>,
}

impl TmuxFacts {
    /// Whether every fact was found.
    pub open spec fn complete(self) -> bool {
        self.session is Some && self.window is Some && self.pane is Some && self.client is Some
    }
}

impl Clone for TmuxContext {
    fn clone(&self) -> (r: Self)
        ensures
            r == *self,
    {
        TmuxContext {
            session: self.session.clone(),
            window: self.window.clone(),
            pane: self.pane.clone(),
            client: self.client.clone(),
        }
    }
}

impl Clone for TerminalContext {
    fn clone(&self) -> (r: Self)
        ensures
            r == *self,
    {
        TerminalContext {
            app: match &self.app {
                Some(a) => Some(a.clone()),
                None => None,
            },
        }
    }
}

impl Clone for Context {
    fn clone(&self) -> (r: Self)
        ensures
            r == *self,
    {
        Context {
            tmux: match &self.tmux {
                Some(t) => Some(t.clone()),
                None => None,
            },
            terminal: match &self.terminal {
                Some(t) => Some(t.clone()),
                None => None,
            },
        }
    }
}

impl Context {
    /// What [`Context::capture`] returns.
    pub open spec fn captured(tmux: TmuxFacts, terminal_app: Option<String>) -> Option<Context> {
        let t = if tmux.complete() {
            Some(
                TmuxContext {
                    session: tmux.session->0,
                    window: tmux.window->0,
                    pane: tmux.pane->0,
                    client: tmux.client->0,
                },
            )
        } else {
            None
        };
        let term = if terminal_app is Some {
            Some(TerminalContext { app: terminal_app })
        } else {
            None
        };
        if t is None && term is None {
            None
        } else {
            Some(Context { tmux: t, terminal: term })
        }
    }

    /// Builds the context of one invocation from what was found around it.
    /// The tmux facts count only when all of them are there; with no tmux
    /// facts and no terminal application there is no context at all.
    pub fn capture(tmux: TmuxFacts, terminal_app: Option<String>) -> (r: Option<Context>)
        ensures
            r == Context::captured(tmux, terminal_app),
    {
        let t = match (tmux.session, tmux.window, tmux.pane, tmux.client) {
            (Some(session), Some(window), Some(pane), Some(client)) => Some(
                TmuxContext { session, window, pane, client },
            ),
            _ => None,
        };
        let term = match terminal_app {
            Some(app) => Some(TerminalContext { app: Some(app) }),
            None => None,
        };
        if t.is_none() && term.is_none() {
            None
        } else {
            Some(Context { tmux: t, terminal: term })
        }
    }
}

} // verus!
