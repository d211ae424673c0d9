//! The macOS notification centre as a provider.

use crate::config::MacosConfig;
use crate::notification::{Notification, Urgency};
use crate::text::{chars_of, eq_fold, eq_ignore_ascii_case};
use std::path::PathBuf;
use crate::provider::{DeliveryReport, Provider, ProviderError, SendOptions};
use vstd::prelude::*;

verus! {

/// The macOS provider as it is where the notification centre cannot be
/// reached from this library: it reports that it is unsupported.
#[derive(Debug, Clone, Copy, PartialEq)]
pub struct MacosProvider;

impl MacosProvider {
    pub fn new(_config: Option<MacosConfig>) -> (r: Result<Self, ProviderError>)
        ensures
            r is Err,
            r->Err_0 == ProviderError::Unsupported,
    {
        Err(ProviderError::Unsupported)
    }
}

impl Provider for MacosProvider {
    fn name(&self) -> (r: &'static str)
        ensures
            r@ == "macos"@,
    {
        "macos"
    }

    fn send(&self, _notification: &Notification, _options: SendOptions) -> (r: Result<
        DeliveryReport,
        ProviderError,
    >)
        ensures
            r is Err,
            r->Err_0 == ProviderError::Unsupported,
    {
        Err(ProviderError::Unsupported)
    }
}

/// The sound of a native notification.
#[derive(Debug, Clone, PartialEq)]
pub enum Sound {
    /// The default sound of the system.
    Default,
    /// The sound of this name.
    Named(String),
}

/// What the notification centre is asked to show.
#[derive(Debug, Clone, PartialEq)]
pub struct NativeRequest {
    pub title: String,
    pub message: String,
    pub subtitle: Option<String>,
    pub sound: Option<Sound>,
    pub icon: Option<PathBuf>,
}

/// The sound that a notification is shown with: the configured one, where
/// `default` in any case stands for the default sound; without one, the
/// default sound for a notification of high urgency, and none otherwise.
pub open spec fn sound_for(configured: Option<String>, urgency: Option<Urgency>) -> Option<Sound> {
    match configured {
        Some(name) => if eq_fold(name@, "default"@) {
            Some(Sound::Default)
        } else {
            Some(Sound::Named(name))
        },
        None => if urgency == Some(Urgency::High) {
            Some(Sound::Default)
        } else {
            None
        },
    }
}

/// Makes the request to the notification centre: title and message as
/// they are, the tag as the subtitle, the sound as configured, and the
/// icon of the notification, else the configured one.
pub fn native_request(config: &MacosConfig, notification: &Notification) -> (r: NativeRequest)
    ensures
        r.title == notification.title,
        r.message == notification.message,
        r.subtitle == notification.tag,
        r.sound == sound_for(config.sound, notification.urgency),
        r.icon == if notification.icon is Some {
            notification.icon
        } else {
            config.icon
        },
{
    let sound = match &config.sound {
        Some(name) => {
            if eq_ignore_ascii_case(
                chars_of(name.as_str()).as_slice(),
                chars_of("default").as_slice(),
            ) {
                Some(Sound::Default)
            } else {
                Some(Sound::Named(name.clone()))
            }
        },
        None => match notification.urgency {
            Some(Urgency::High) => Some(Sound::Default),
            _ => None,
        },
    };
    NativeRequest {
        title: notification.title.clone(),
        message: notification.message.clone(),
        subtitle: crate::notification::clone_opt(&notification.tag),
        sound,
        icon: if notification.icon.is_some() {
            notification.icon.clone()
        } else {
            config.icon.clone()
        },
    }
}

} // verus!
