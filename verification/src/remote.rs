//! What crosses the network between a relay client and a listener.

use crate::context::Context;
use crate::notification::{Notification, NotificationView};
use vstd::prelude::*;

verus! {

/// The part of the context that may cross a network boundary: a label for
/// the host the notification comes from.
#[derive(Debug, Clone, PartialEq)]
pub struct RemoteContext {
    pub origin_host: Option<String>,
}

impl RemoteContext {
    /// Projects the local context for the network. Nothing of the local
    /// context is carried over; the label of this host is all that leaves.
    pub fn from_local(_context: Option<&Context>, origin_host: Option<String>) -> (r: Self)
        ensures
            r.origin_host == origin_host,
    {
        RemoteContext { origin_host }
    }
}

/// A notification on the wire.
#[derive(Debug, Clone, PartialEq)]
pub struct RemoteEnvelope {
    pub notification: Notification,
    pub context: Option<RemoteContext>,
}

impl RemoteEnvelope {
    /// Wraps a copy of `notification` for the wire. The copy has no icon;
    /// every other field is kept.
    pub fn new(notification: &Notification, context: RemoteContext) -> (r: Self)
        ensures
            r.notification.icon is None,
            r.notification@ == (NotificationView { icon: None, ..notification@ }),
            r.context == Some(context),
    {
        RemoteEnvelope { notification: notification.without_icon(), context: Some(context) }
    }
}

} // verus!
