//! The notification settings: how long before a release the notification
//! comes, and whether a newer release of the program is announced.

use vstd::prelude::*;

use crate::helpers::{decimal, push_decimal};
use crate::settings_config::NotificationSettings;

verus! {

#[derive(Debug, Clone, Copy, PartialEq, Eq, Structural)]
pub enum Message {
    TimeChanged(u32),
    NotifyWhenOutdated(bool),
}

#[derive(Debug, Clone, Copy, PartialEq, Eq, Structural)]
pub struct Notifications;

/// `System notification will be sent <minutes> minutes before an episode
/// release`.
pub open spec fn time_to_notify_text(minutes: nat) -> Seq<char> {
    "System notification will be sent "@ + decimal(minutes) + " minutes before an episode release"@
}

impl Notifications {
    /// Stores the choice in the settings.
    pub fn update(&mut self, message: Message, settings: &mut NotificationSettings)
        ensures
            message matches Message::TimeChanged(t) ==> *final(settings) == (NotificationSettings {
                time_to_notify: t,
                ..*old(settings)
            }),
            message matches Message::NotifyWhenOutdated(b) ==> *final(settings) == (NotificationSettings {
                notify_when_outdated: b,
                ..*old(settings)
            }),
    {
        match message {
            Message::TimeChanged(new_time) => settings.time_to_notify = new_time,
            Message::NotifyWhenOutdated(notify) => settings.notify_when_outdated = notify,
        }
    }

    /// The explanation under "When to notify".
    pub fn time_to_notify_label(settings: &NotificationSettings) -> (s: String)
        ensures
            s@ == time_to_notify_text(settings.time_to_notify as nat),
    {
        proof {
            reveal_strlit("System notification will be sent ");
            reveal_strlit(" minutes before an episode release");
        }
        let mut s = String::from_str("System notification will be sent ");
        push_decimal(&mut s, settings.time_to_notify);
        s.append(" minutes before an episode release");
        s
    }
}

} // verus!
