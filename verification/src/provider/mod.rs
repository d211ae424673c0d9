//! The provider capability: what presents a notification and may wait for
//! the user to act on it.

use crate::notification::Notification;
use vstd::prelude::*;

pub mod macos;

verus! {

/// How a delivery is to be made.
#[derive(Debug, Clone, Copy, PartialEq, Eq, Structural)]
pub struct SendOptions {
    pub wait_for_click: bool,
}

/// What the user did with a notification that was waited on.
#[derive(Debug, PartialEq)]
pub enum DeliveryOutcome {
    Delivered,
    Clicked,
    ActionButton(String),
    Closed(String),
    Replied(String),
}

impl Clone for DeliveryOutcome {
    fn clone(&self) -> (r: Self)
        ensures
            r == *self,
    {
        match self {
            DeliveryOutcome::Delivered => DeliveryOutcome::Delivered,
            DeliveryOutcome::Clicked => DeliveryOutcome::Clicked,
            DeliveryOutcome::ActionButton(label) => DeliveryOutcome::ActionButton(label.clone()),
            DeliveryOutcome::Closed(label) => DeliveryOutcome::Closed(label.clone()),
            DeliveryOutcome::Replied(text) => DeliveryOutcome::Replied(text.clone()),
        }
    }
}

/// What a provider reports after a send. `outcome` is `None` when the
/// provider did not wait.
#[derive(Debug, Clone, PartialEq)]
pub struct DeliveryReport {
    pub provider: &'static str,
    pub id: Option<String>,
    pub outcome: Option<DeliveryOutcome>,
}

#[derive(Debug, Clone, PartialEq)]
pub enum ProviderError {
    Unsupported,
    Message(String),
}

impl ProviderError {
    /// The text of the error.
    pub open spec fn message_text(self) -> Seq<char> {
        match self {
            ProviderError::Unsupported => "provider not available on this platform"@,
            ProviderError::Message(m) => "provider error: "@ + m@,
        }
    }

    /// The error as text.
    pub fn message(&self) -> (r: String)
        ensures
            r@ == self.message_text(),
    {
        match self {
            ProviderError::Unsupported => {
                let mut out = String::new();
                crate::text::append_str(&mut out, "provider not available on this platform");
                assert(Seq::<char>::empty() + "provider not available on this platform"@
                    =~= "provider not available on this platform"@);
                out
            },
            ProviderError::Message(m) => {
                let mut out = String::new();
                crate::text::append_str(&mut out, "provider error: ");
                crate::text::append_str(&mut out, m.as_str());
                assert(Seq::<char>::empty() + "provider error: "@ + m@ =~= "provider error: "@
                    + m@);
                out
            },
        }
    }
}

/// A way to present a notification.
pub trait Provider {
    fn name(&self) -> &'static str;

    fn send(&self, notification: &Notification, options: SendOptions) -> Result<
        DeliveryReport,
        ProviderError,
    >;
}

} // verus!
