//! The notification value passed between processes and hosts.

use std::collections::BTreeMap;
use std::path::PathBuf;
use vstd::prelude::*;

verus! {

/// std's `PathBuf`, carried through as an opaque value.
#[verifier::external_type_specification]
#[verifier::external_body]
pub struct ExPathBuf(PathBuf);

/// std's `<PathBuf as Clone>::clone`: the copy equals the path it was
/// made of.
pub assume_specification[ <PathBuf as Clone>::clone ](p: &PathBuf) -> (r: PathBuf)
    ensures
        r == *p,
;

#[derive(Debug, Clone, Copy, PartialEq, Eq, Structural)]
pub enum Urgency {
    Low,
    Normal,
    High,
}

impl Default for Urgency {
    fn default() -> (r: Self)
        ensures
            r == Urgency::Normal,
    {
        Urgency::Normal
    }
}

#[derive(Debug, PartialEq)]
pub struct Action {
    pub label: String,
    pub url: Option<String>,
    pub command: Option<String>,
}

pub ghost struct ActionView {
    pub label: Seq<char>,
    pub url: Option<Seq<char>>,
    pub command: Option<Seq<char>>,
}

impl View for Action {
    type V = ActionView;

    open spec fn view(&self) -> ActionView {
        ActionView {
            label: self.label@,
            url: self.url.deep_view(),
            command: self.command.deep_view(),
        }
    }
}

impl DeepView for Action {
    type V = ActionView;

    open spec fn deep_view(&self) -> ActionView {
        self@
    }
}

/// A copy of an optional string.
pub fn clone_opt(s: &Option<String>) -> (r: Option<String>)
    ensures
        r == *s,
{
    match s {
        Some(v) => Some(v.clone()),
        None => None,
    }
}

impl Clone for Action {
    fn clone(&self) -> (r: Self)
        ensures
            r == *self,
    {
        Action {
            label: self.label.clone(),
            url: clone_opt(&self.url),
            command: clone_opt(&self.command),
        }
    }
}

#[derive(Debug, PartialEq)]
pub struct Notification {
    pub title: String,
    pub message: String,
    pub source: Option<String>,
    pub icon: Option<PathBuf>,
    pub link: Option<String>,
    pub sound: Option<String>,
    pub urgency: Option<Urgency>,
    pub tag: Option<String>,
    pub sender: Option<String>,
    pub dedupe_key: Option<String>,
    pub metadata: Option<BTreeMap<String, String>>,
    pub actions: Vec<Action>,
}

impl Clone for Notification {
    fn clone(&self) -> (r: Self)
        ensures
            r@ == self@,
    {
        let r = Notification {
            title: self.title.clone(),
            message: self.message.clone(),
            source: clone_opt(&self.source),
            icon: self.icon.clone(),
            link: clone_opt(&self.link),
            sound: clone_opt(&self.sound),
            urgency: self.urgency,
            tag: clone_opt(&self.tag),
            sender: clone_opt(&self.sender),
            dedupe_key: clone_opt(&self.dedupe_key),
            metadata: self.metadata.clone(),
            actions: self.actions.clone(),
        };
        assert(r.actions.deep_view() =~= self.actions.deep_view());
        r
    }
}

impl Default for Notification {
    /// An empty notification: no title, no message, nothing else set.
    fn default() -> (r: Self)
        ensures
            r@ == (NotificationView {
                title: Seq::empty(),
                message: Seq::empty(),
                source: None,
                icon: None,
                link: None,
                sound: None,
                urgency: None,
                tag: None,
                sender: None,
                dedupe_key: None,
                metadata: None,
                actions: Seq::empty(),
            }),
    {
        let r = Notification {
            title: String::new(),
            message: String::new(),
            source: None,
            icon: None,
            link: None,
            sound: None,
            urgency: None,
            tag: None,
            sender: None,
            dedupe_key: None,
            metadata: None,
            actions: Vec::new(),
        };
        assert(r.actions.deep_view() =~= Seq::empty());
        r
    }
}

impl Notification {
    /// A copy of the notification without its icon.
    pub fn without_icon(&self) -> (r: Self)
        ensures
            r.icon is None,
            r@ == (NotificationView { icon: None, ..self@ }),
    {
        let mut r = self.clone();
        r.icon = None;
        r
    }
}

pub ghost struct NotificationView {
    pub title: Seq<char>,
    pub message: Seq<char>,
    pub source: Option<Seq<char>>,
    pub icon: Option<PathBuf>,
    pub link: Option<Seq<char>>,
    pub sound: Option<Seq<char>>,
    pub urgency: Option<Urgency>,
    pub tag: Option<Seq<char>>,
    pub sender: Option<Seq<char>>,
    pub dedupe_key: Option<Seq<char>>,
    pub metadata: Option<Map<String, String>>,
    pub actions: Seq<ActionView>,
}

impl View for Notification {
    type V = NotificationView;

    open spec fn view(&self) -> NotificationView {
        NotificationView {
            title: self.title@,
            message: self.message@,
            source: self.source.deep_view(),
            icon: self.icon,
            link: self.link.deep_view(),
            sound: self.sound.deep_view(),
            urgency: self.urgency,
            tag: self.tag.deep_view(),
            sender: self.sender.deep_view(),
            dedupe_key: self.dedupe_key.deep_view(),
            metadata: match self.metadata {
                Some(m) => Some(m@),
                None => None,
            },
            actions: self.actions.deep_view(),
        }
    }
}

} // verus!
