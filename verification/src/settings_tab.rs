//! The settings tab: the widgets for each group of settings, and how a
//! message reaches the widget it is for.

pub mod about_widget;
pub mod caching_widget;
pub mod notifications_widget;
pub mod appearance_widget;
pub mod discover_widget;
pub mod database_widget;
pub mod locale_widget;

use vstd::prelude::*;

use crate::settings_config::{list_ends_at, names_before, no_country_named, NotificationSettings, Settings};
use crate::trakt_integration::Client;
use about_widget::{about_step, About, Action as AboutAction, Message as AboutMessage};
use appearance_widget::{Appearance, Message as AppearanceMessage};
use database_widget::{database_step, Action as DatabaseAction, Database, FullCachingEvent, Message as DatabaseMessage};
use discover_widget::{discover_step, Action as DiscoverAction, Discover, Message as DiscoverMessage};
use notifications_widget::{Message as NotificationsMessage, Notifications};

verus! {

#[derive(Debug)]
pub enum Message {
    Appearance(AppearanceMessage),
    Database(DatabaseMessage),
    Notifications(NotificationsMessage),
    Discover(DiscoverMessage),
    About(AboutMessage),
}

/// What the caller has to do after the tab handled a message: what the
/// widget that handled it asks for.
#[derive(Debug)]
pub enum Action {
    Nothing,
    Database(DatabaseAction),
    Discover(DiscoverAction),
    About(AboutAction),
}

/// The settings tab.
pub struct SettingsTab {
    pub appearance_settings: Appearance,
    pub database_settings: Database,
    pub notifications_settings: Notifications,
    pub discover_settings: Discover,
    pub about: About,
}

/// Whether the widget a message is for can take it in its present state.
pub open spec fn settings_accepts(tab: SettingsTab, message: Message) -> bool {
    match message {
        Message::Database(m) => {
            &&& (m matches DatabaseMessage::ImportReceived(Ok(Some(_))) ==> tab.database_settings.has_sender)
            &&& (m == DatabaseMessage::ImportCachingEvent(FullCachingEvent::WorkFinished)
                ==> tab.database_settings.transfer_data is Some)
            &&& (m == DatabaseMessage::ImportCachingEvent(FullCachingEvent::Progressing)
                ==> tab.database_settings.import_progress.0 < usize::MAX)
            &&& (m matches DatabaseMessage::TraktIntegration(t) ==> tab.database_settings.trakt_widget.accepts(t))
        },
        Message::Discover(DiscoverMessage::CountrySelected(name)) => !no_country_named(name@),
        _ => true,
    }
}

impl SettingsTab {
    /// The tab, and the check for a newer release that the about widget
    /// starts.
    pub fn new() -> (r: (Self, Action))
        ensures
            r.0.about.crate_information is None,
            r.0.database_settings.import_status is None,
            r.0.database_settings.export_status is None,
            r.0.database_settings.import_progress == (0usize, 0usize),
            !r.0.database_settings.importing,
            r.0.database_settings.transfer_data is None,
            !r.0.database_settings.has_sender,
            r.0.database_settings.trakt_widget.setup_page is None,
            !r.0.database_settings.trakt_widget.sync_trakt_account,
            exists|count: nat|
                list_ends_at(count) && r.0.discover_settings.country_names@.map_values(|n: String| n@) == names_before(
                    count,
                ),
            r.1 matches Action::About(AboutAction::CheckUpdate),
    {
        let (about, about_action) = About::new();
        (
            Self {
                appearance_settings: Appearance,
                database_settings: Database::new(),
                notifications_settings: Notifications,
                discover_settings: Discover::new(),
                about,
            },
            Action::About(about_action),
        )
    }

    /// Passes a message to the widget it is for; the widgets that change a
    /// setting change it in `settings`. `environment_client` is what the
    /// Trakt integration reads from the environment.
    pub fn update(
        &mut self,
        message: Message,
        settings: &mut Settings,
        environment_client: Result<Client, String>,
    ) -> (a: Action)
        requires
            settings_accepts(*old(self), message),
        ensures
            match message {
                Message::Appearance(AppearanceMessage::ThemeSelected(t)) => {
                    &&& a is Nothing
                    &&& *final(self) == *old(self)
                    &&& final(settings).appearance.theme == t
                    &&& final(settings).cache == old(settings).cache
                    &&& final(settings).notifications == old(settings).notifications
                    &&& final(settings).locale == old(settings).locale
                },
                Message::Notifications(m) => {
                    &&& a is Nothing
                    &&& *final(self) == *old(self)
                    &&& final(settings).appearance == old(settings).appearance
                    &&& final(settings).cache == old(settings).cache
                    &&& final(settings).locale == old(settings).locale
                    &&& match m {
                        NotificationsMessage::TimeChanged(t) => final(settings).notifications
                            == NotificationSettings { time_to_notify: t, ..old(settings).notifications },
                        NotificationsMessage::NotifyWhenOutdated(b) => final(settings).notifications
                            == NotificationSettings { notify_when_outdated: b, ..old(settings).notifications },
                    }
                },
                Message::Database(m) => {
                    &&& a matches Action::Database(x) && database_step(
                        old(self).database_settings,
                        m,
                        environment_client,
                        final(self).database_settings,
                        x,
                    )
                    &&& *final(self) == SettingsTab { database_settings: final(self).database_settings, ..*old(self) }
                    &&& *final(settings) == *old(settings)
                },
                Message::Discover(m) => {
                    &&& a matches Action::Discover(x) && discover_step(
                        m,
                        old(settings).locale,
                        final(settings).locale,
                        x,
                    )
                    &&& *final(self) == *old(self)
                    &&& final(settings).appearance == old(settings).appearance
                    &&& final(settings).cache == old(settings).cache
                    &&& final(settings).notifications == old(settings).notifications
                },
                Message::About(m) => {
                    &&& a matches Action::About(x) && about_step(
                        old(self).about,
                        m,
                        old(settings).notifications.notify_when_outdated,
                        final(self).about,
                        x,
                    )
                    &&& *final(self) == SettingsTab { about: final(self).about, ..*old(self) }
                    &&& *final(settings) == *old(settings)
                },
            },
    {
        match message {
            Message::Appearance(message) => {
                self.appearance_settings.update(message, &mut settings.appearance);
                Action::Nothing
            },
            Message::Database(message) => {
                Action::Database(self.database_settings.update(message, environment_client))
            },
            Message::Notifications(message) => {
                self.notifications_settings.update(message, &mut settings.notifications);
                Action::Nothing
            },
            Message::Discover(message) => {
                Action::Discover(self.discover_settings.update(message, &mut settings.locale))
            },
            Message::About(message) => {
                let notify = settings.notifications.notify_when_outdated;
                Action::About(self.about.update(message, notify))
            },
        }
    }
}

} // verus!
