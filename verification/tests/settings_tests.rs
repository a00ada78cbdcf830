use series_troxide::settings_config::{
    country_names, get_country_code_from_country_name, get_country_name_from_country_code, AppearanceSettings,
    CacheSettings, LocaleSettings, NotificationSettings, Settings, Theme,
};
use series_troxide::settings_tab::locale_widget::{Locale, Message as LocaleMessage};
use series_troxide::settings_tab::{Action as SettingsAction, Message as SettingsMessage, SettingsTab};
use series_troxide::settings_tab::about_widget::{
    About, Action as AboutAction, CrateInformation, Message as AboutMessage, PackageInformation, Site,
    update_status_text, VersionBoxStyle,
};
use series_troxide::settings_tab::appearance_widget::{Appearance, Message as AppearanceMessage};
use series_troxide::settings_tab::caching_widget::{
    status_and_button_gen, Action as CachingAction, CacheCleaningFrequency, CacheKind, Caching, CleaningStatus,
    FrequencyMessage, Message as CachingMessage, StatusText,
};
use series_troxide::settings_tab::database_widget::{
    get_status_text, Action as DatabaseAction, Database, FullCachingEvent, Input, Message as DatabaseMessage,
    TransferData,
};
use series_troxide::settings_tab::discover_widget::{
    Action as DiscoverAction, Discover, HiddenEntry, HiddenSeries, HiddenSeriesMessage, Message as DiscoverMessage,
};
use series_troxide::settings_tab::notifications_widget::{Message as NotificationsMessage, Notifications};

fn cache_settings() -> CacheSettings {
    CacheSettings { aired_cache_clean_frequency: 1, ended_cache_clean_frequency: 7, waiting_release_cache_clean_frequency: 2 }
}

#[test]
fn countries_are_looked_up_in_the_iso_list() {
    let names = country_names();
    assert!(names.len() > 200);
    assert!(names.iter().any(|n| n == "Kenya"));
    assert_eq!(get_country_code_from_country_name("Kenya"), Some("KE".to_string()));
    assert_eq!(get_country_code_from_country_name("Atlantis"), None);
    assert_eq!(get_country_name_from_country_code("KE"), Some("Kenya".to_string()));
    assert_eq!(get_country_name_from_country_code("ZZ"), None);
}

#[test]
fn discover_settings_store_the_country_code() {
    let mut discover = Discover::new();
    assert!(discover.country_names.len() > 200);
    let mut locale = LocaleSettings { country_code: "US".to_string() };
    let action = discover.update(DiscoverMessage::CountrySelected("Kenya".to_string()), &mut locale);
    assert_eq!(action, DiscoverAction::Nothing);
    assert_eq!(locale.country_code, "KE");
    let action = discover.update(DiscoverMessage::HiddenSeries(HiddenSeriesMessage::UnhideSeries(9)), &mut locale);
    assert_eq!(action, DiscoverAction::UnhideSeries(9));
}

#[test]
fn hidden_series_list() {
    assert!(HiddenSeries::shows_no_posters(&None));
    assert!(HiddenSeries::shows_no_posters(&Some(vec![])));
    let entry = HiddenEntry { series_id: 1, series_name: "A".to_string(), premier_date: Some("2020-02-02".to_string()) };
    assert_eq!(HiddenSeries::premier_date_label(&entry), Some("(2020-02-02)".to_string()));
    assert!(!HiddenSeries::shows_no_posters(&Some(vec![entry])));
}

#[test]
fn cache_cleaning_goes_through_its_statuses() {
    let mut caching = Caching::new();
    let mut settings = cache_settings();
    assert_eq!(caching.update(CachingMessage::CleanEndedCache, &mut settings), CachingAction::Clean(CacheKind::Ended));
    assert_eq!(caching.ended_series_cache_cleaning, CleaningStatus::Running);
    assert_eq!(status_and_button_gen(&caching.ended_series_cache_cleaning), (StatusText::Running, false));
    assert_eq!(
        caching.update(CachingMessage::CleanEndedCacheComplete(None), &mut settings),
        CachingAction::StatusTimeout(CacheKind::Ended)
    );
    assert_eq!(status_and_button_gen(&caching.ended_series_cache_cleaning), (StatusText::Done, true));
    caching.update(CachingMessage::CleanEndedCacheTimeoutComplete, &mut settings);
    assert_eq!(caching.ended_series_cache_cleaning, CleaningStatus::Idle);
    assert_eq!(status_and_button_gen(&caching.ended_series_cache_cleaning), (StatusText::Blank, true));
    caching.update(CachingMessage::CleanAiredCacheComplete(Some("disk full".to_string())), &mut settings);
    assert_eq!(
        status_and_button_gen(&caching.aired_series_cache_cleaning),
        (StatusText::Failed("disk full".to_string()), true)
    );
    assert_eq!(caching.waiting_release_series_cache_cleaning, CleaningStatus::Idle);
    assert_eq!(settings, cache_settings());
}

#[test]
fn cleaning_frequencies_are_stored() {
    let mut caching = Caching::new();
    let mut settings = cache_settings();
    caching.update(CachingMessage::CacheCleaningFrequency(FrequencyMessage::Ended(30)), &mut settings);
    assert_eq!(settings.ended_cache_clean_frequency, 30);
    assert_eq!(settings.aired_cache_clean_frequency, 1);
    assert_eq!(CacheCleaningFrequency::slider_range(CacheKind::WaitingRelease), (1, 14));
    assert_eq!(
        CacheCleaningFrequency::frequency_label(CacheKind::Aired, &settings),
        "Cache cleaning frequency for aired series: 1 days"
    );
    assert_eq!(
        CacheCleaningFrequency::frequency_label(CacheKind::WaitingRelease, &settings),
        "Cache cleaning frequency for series waiting for release date: 2 days"
    );
}

#[test]
fn notification_and_appearance_settings() {
    let mut settings = NotificationSettings { time_to_notify: 5, notify_when_outdated: false };
    let mut notifications = Notifications;
    notifications.update(NotificationsMessage::TimeChanged(15), &mut settings);
    notifications.update(NotificationsMessage::NotifyWhenOutdated(true), &mut settings);
    assert_eq!(settings, NotificationSettings { time_to_notify: 15, notify_when_outdated: true });
    assert_eq!(
        Notifications::time_to_notify_label(&settings),
        "System notification will be sent 15 minutes before an episode release"
    );
    let mut appearance = AppearanceSettings { theme: Theme::Light };
    Appearance.update(AppearanceMessage::ThemeSelected(Theme::Dark), &mut appearance);
    assert_eq!(appearance.theme, Theme::Dark);
    assert_eq!(Appearance::themes(), vec![Theme::Light, Theme::Dark, Theme::System]);
    assert_eq!(Appearance::theme_label(Theme::System), "System");
}

#[test]
fn about_widget_checks_for_updates() {
    let (mut about, action) = About::new();
    assert!(matches!(action, AboutAction::CheckUpdate));
    let status = about.version_status();
    assert_eq!(status.latest_version, "loading...");
    assert_eq!(status.style, VersionBoxStyle::Loading);
    let outdated = CrateInformation {
        package: PackageInformation { newest_version: "0.9.0".to_string(), up_to_date: false },
    };
    match about.update(AboutMessage::CrateInfoLoaded(Ok(outdated)), true) {
        AboutAction::Notify(summary, body) => {
            assert_eq!(summary, "Series Troxide Update");
            assert_eq!(body, "Version 0.9.0 of Series Troxide is available");
        },
        other => panic!("unexpected action {:?}", other),
    }
    let status = about.version_status();
    assert_eq!(status.latest_version, "0.9.0");
    assert_eq!(status.style, VersionBoxStyle::Failure);
    assert_eq!(update_status_text(status.up_to_date), Some("Out of date"));
    assert!(matches!(about.update(AboutMessage::TvMaze, true), AboutAction::OpenSite(Site::TvMaze)));
    assert!(matches!(about.update(AboutMessage::RecheckUpdate, true), AboutAction::CheckUpdate));
    assert!(about.crate_information.is_none());
    about.update(AboutMessage::CrateInfoLoaded(Err("offline".to_string())), true);
    assert_eq!(about.version_status().latest_version, "unavailable");
    assert_eq!(update_status_text(None), None);
}

#[test]
fn no_notification_when_not_wanted() {
    let (mut about, _) = About::new();
    let outdated = CrateInformation {
        package: PackageInformation { newest_version: "0.9.0".to_string(), up_to_date: false },
    };
    assert!(matches!(about.update(AboutMessage::CrateInfoLoaded(Ok(outdated)), false), AboutAction::Nothing));
}

#[test]
fn database_import_and_export() {
    let mut database = Database::new();
    assert!(database.import_enabled());
    assert!(matches!(database.update(DatabaseMessage::ImportDatabasePressed, Err(String::new())), DatabaseAction::ImportTransferData));
    database.update(DatabaseMessage::ImportCachingEvent(FullCachingEvent::Ready), Err(String::new()));
    match database.update(
        DatabaseMessage::ImportReceived(Ok(Some(TransferData { series_ids: vec![3, 4] }))),
        Err(String::new()),
    ) {
        DatabaseAction::SendToCacher(Input::CacheSeries(ids)) => assert_eq!(ids, vec![3, 4]),
        other => panic!("unexpected action {:?}", other),
    }
    assert!(!database.import_enabled());
    database.update(DatabaseMessage::ImportCachingEvent(FullCachingEvent::Progressing), Err(String::new()));
    assert_eq!(database.import_progress_text(), Some("1 / 2".to_string()));
    match database.update(DatabaseMessage::ImportCachingEvent(FullCachingEvent::WorkFinished), Err(String::new())) {
        DatabaseAction::ImportIntoDatabase(data) => assert_eq!(data.series_ids, vec![3, 4]),
        other => panic!("unexpected action {:?}", other),
    }
    assert_eq!(get_status_text(&database.import_status), StatusText::Done);
    database.update(DatabaseMessage::ImportTimeoutComplete, Err(String::new()));
    assert_eq!(get_status_text(&database.import_status), StatusText::Blank);
    database.update(DatabaseMessage::ExportComplete(Err("denied".to_string())), Err(String::new()));
    assert_eq!(get_status_text(&database.export_status), StatusText::Failed("denied".to_string()));
    assert_eq!(database.import_progress_text(), None);
}

fn settings() -> Settings {
    Settings {
        appearance: AppearanceSettings { theme: Theme::Dark },
        cache: cache_settings(),
        notifications: NotificationSettings { time_to_notify: 10, notify_when_outdated: true },
        locale: LocaleSettings { country_code: "US".to_string() },
    }
}

#[test]
fn settings_tab_passes_messages_to_its_widgets() {
    let (mut tab, action) = SettingsTab::new();
    assert!(matches!(action, SettingsAction::About(AboutAction::CheckUpdate)));
    let mut settings = settings();
    let action = tab.update(
        SettingsMessage::Appearance(AppearanceMessage::ThemeSelected(Theme::Light)),
        &mut settings,
        Err(String::new()),
    );
    assert!(matches!(action, SettingsAction::Nothing));
    assert_eq!(settings.appearance.theme, Theme::Light);
    tab.update(SettingsMessage::Notifications(NotificationsMessage::TimeChanged(30)), &mut settings, Err(String::new()));
    assert_eq!(settings.notifications.time_to_notify, 30);
    assert!(settings.notifications.notify_when_outdated);
    tab.update(
        SettingsMessage::Discover(DiscoverMessage::CountrySelected("Kenya".to_string())),
        &mut settings,
        Err(String::new()),
    );
    assert_eq!(settings.locale.country_code, "KE");
    match tab.update(
        SettingsMessage::Discover(DiscoverMessage::HiddenSeries(HiddenSeriesMessage::UnhideSeries(8))),
        &mut settings,
        Err(String::new()),
    ) {
        SettingsAction::Discover(DiscoverAction::UnhideSeries(id)) => assert_eq!(id, 8),
        other => panic!("unexpected action {:?}", other),
    }
    assert!(matches!(
        tab.update(SettingsMessage::Database(DatabaseMessage::ExportDatabasePressed), &mut settings, Err(String::new())),
        SettingsAction::Database(DatabaseAction::Export)
    ));
    assert!(matches!(
        tab.update(SettingsMessage::About(AboutMessage::Repository), &mut settings, Err(String::new())),
        SettingsAction::About(AboutAction::OpenSite(Site::Repository))
    ));
    assert_eq!(settings.cache, cache_settings());
}

#[test]
fn locale_widget_chooses_the_country() {
    let mut locale = Locale::new();
    assert!(locale.country_list.iter().any(|n| n == "Japan"));
    let mut settings = LocaleSettings { country_code: "US".to_string() };
    assert_eq!(Locale::selected_country(&settings), "United States of America");
    locale.update(LocaleMessage::CountrySelected("Japan".to_string()), &mut settings);
    assert_eq!(settings.country_code, "JP");
    assert_eq!(Locale::selected_country(&settings), "Japan");
}
