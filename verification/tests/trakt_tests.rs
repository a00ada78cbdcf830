use series_troxide::trakt_integration::code_authentication::{Event as AuthEvent, Input as AuthInput};
use series_troxide::trakt_integration::trakt_data_import::{Event as ImportEvent, ImportedSeries, Input as ImportInput};
use series_troxide::trakt_integration::{
    Action, AuthenticationView, Client, ClientPageMessage, ClientPageView, CodeResponse, ConfirmationPageMessage,
    Credentials, ImportPage, ImportPageMessage, ImportStatus, Message, ProgramAuthenticationPageMessage, SetupStep,
    StartPageMessage, Subscription, TokenResponse, TraktIntegration, TraktShow, UserSettings,
};

fn code() -> CodeResponse {
    CodeResponse {
        device_code: "device".to_string(),
        user_code: "ABCD".to_string(),
        verification_url: "https://trakt.tv/activate".to_string(),
        expires_in: 600,
        interval: 5,
    }
}

fn imported(name: &str, id: u32) -> ImportedSeries {
    ImportedSeries { name: name.to_string(), id, watched_episodes: vec![(1, 1), (1, 2)], is_tracked: false }
}

fn no_client() -> Result<Client, String> {
    Err("not set".to_string())
}

#[test]
fn full_account_setup() {
    let mut trakt = TraktIntegration::new();
    assert!(trakt.setup_page.is_none());
    assert_eq!(trakt.subscription(), Subscription::Idle);

    assert!(matches!(trakt.update(Message::LoadCredentials, no_client()), Action::LoadCredentials));
    let action = trakt.update(Message::CredentialsLoaded(Credentials { data: None }), no_client());
    assert!(matches!(action, Action::Nothing));
    assert!(matches!(trakt.setup_page, Some(SetupStep::Start(_))));

    trakt.update(Message::StartPage(StartPageMessage::ConnectAccount), no_client());
    assert!(matches!(trakt.setup_page, Some(SetupStep::Client(_))));

    trakt.update(Message::ClientPage(ClientPageMessage::ClientIdChanged("my-id".to_string())), no_client());
    trakt.update(Message::ClientPage(ClientPageMessage::ClientSecretChanged("my-secret".to_string())), no_client());
    match trakt.update(Message::ClientPage(ClientPageMessage::Submit), no_client()) {
        Action::RequestDeviceCode(id) => assert_eq!(id, "my-id"),
        other => panic!("unexpected action {:?}", other),
    }
    if let Some(SetupStep::Client(page)) = &trakt.setup_page {
        assert!(matches!(page.view_state(), ClientPageView::Loading));
    } else {
        panic!("client page expected");
    }

    trakt.update(Message::ClientPage(ClientPageMessage::CodeReceived(Ok(code()))), no_client());
    assert!(matches!(trakt.setup_page, Some(SetupStep::ProgramAuthentication(_))));
    assert_eq!(trakt.subscription(), Subscription::CodeAuthentication);

    match trakt.update(
        Message::ProgramAuthenticationPage(ProgramAuthenticationPageMessage::AuthenticationEvent(AuthEvent::Ready)),
        no_client(),
    ) {
        Action::Authenticate(AuthInput::AuthenticateCode(c, client)) => {
            assert_eq!(c.user_code, "ABCD");
            assert_eq!(client.client_id, "my-id");
            assert_eq!(client.client_secret, "my-secret");
        },
        other => panic!("unexpected action {:?}", other),
    }

    trakt.update(
        Message::ProgramAuthenticationPage(ProgramAuthenticationPageMessage::AuthenticationEvent(
            AuthEvent::Progressing,
        )),
        no_client(),
    );
    if let Some(SetupStep::ProgramAuthentication(page)) = &trakt.setup_page {
        assert_eq!(page.count_down, 595);
        assert_eq!(page.countdown_label(), "595 seconds to expiration");
        assert_eq!(page.view_state(), AuthenticationView::AwaitingUser);
    } else {
        panic!("authentication page expected");
    }

    match trakt.update(
        Message::ProgramAuthenticationPage(ProgramAuthenticationPageMessage::AuthenticationEvent(
            AuthEvent::WorkFinished(Some(TokenResponse { access_token: "token".to_string() })),
        )),
        no_client(),
    ) {
        Action::LoadUserSettings(client_id, token) => {
            assert_eq!(client_id, "my-id");
            assert_eq!(token, "token");
        },
        other => panic!("unexpected action {:?}", other),
    }

    let settings = UserSettings { username: "user".to_string(), slug: "user-slug".to_string() };
    trakt.update(
        Message::ProgramAuthenticationPage(ProgramAuthenticationPageMessage::UserSettingsLoaded(settings)),
        no_client(),
    );
    assert!(matches!(trakt.setup_page, Some(SetupStep::Confirmation(_))));

    match trakt.update(Message::ConfirmationPage(ConfirmationPageMessage::SaveCredentials), no_client()) {
        Action::SaveCredentials(credentials) => {
            let (user, token) = credentials.data.expect("credentials");
            assert_eq!(user.slug, "user-slug");
            assert_eq!(token.access_token, "token");
        },
        other => panic!("unexpected action {:?}", other),
    }
    trakt.update(Message::ConfirmationPage(ConfirmationPageMessage::CredentialsSaved), no_client());
    assert!(trakt.setup_page.is_none());
}

#[test]
fn cancel_closes_the_setup() {
    let mut trakt = TraktIntegration::new();
    trakt.update(Message::CredentialsLoaded(Credentials { data: None }), no_client());
    assert!(trakt.setup_page.is_some());
    assert!(matches!(trakt.update(Message::Cancel, no_client()), Action::Nothing));
    assert!(trakt.setup_page.is_none());
}

#[test]
fn removing_an_account() {
    let mut trakt = TraktIntegration::new();
    trakt.update(Message::CredentialsLoaded(Credentials { data: None }), no_client());
    assert!(matches!(
        trakt.update(Message::StartPage(StartPageMessage::RemoveAccount), no_client()),
        Action::RemoveCredentials
    ));
    trakt.update(Message::StartPage(StartPageMessage::AccountRemoved), no_client());
    assert!(trakt.setup_page.is_none());
}

#[test]
fn failed_code_request_is_shown() {
    let mut trakt = TraktIntegration::new();
    trakt.update(Message::CredentialsLoaded(Credentials { data: None }), no_client());
    trakt.update(Message::StartPage(StartPageMessage::ConnectAccount), no_client());
    trakt.update(
        Message::ClientPage(ClientPageMessage::CodeReceived(Err("network down".to_string()))),
        no_client(),
    );
    if let Some(SetupStep::Client(page)) = &trakt.setup_page {
        match page.view_state() {
            ClientPageView::Error(text) => assert_eq!(text, "Error: network down"),
            other => panic!("unexpected view {:?}", other),
        }
    } else {
        panic!("client page expected");
    }
}

#[test]
fn client_from_environment_continues_setup() {
    let mut trakt = TraktIntegration::new();
    let client = || Ok(Client { client_id: "env-id".to_string(), client_secret: "env-secret".to_string() });
    trakt.update(Message::CredentialsLoaded(Credentials { data: None }), client());
    trakt.update(Message::StartPage(StartPageMessage::ConnectAccount), client());
    if let Some(SetupStep::Client(page)) = &trakt.setup_page {
        match page.view_state() {
            ClientPageView::Form { button_label, submit_enabled, .. } => {
                assert_eq!(button_label, "continue setup");
                assert!(submit_enabled);
            },
            other => panic!("unexpected view {:?}", other),
        }
    }
    match trakt.update(Message::ClientPage(ClientPageMessage::Submit), client()) {
        Action::RequestDeviceCode(id) => assert_eq!(id, "env-id"),
        other => panic!("unexpected action {:?}", other),
    }
}

#[test]
fn import_of_trakt_data() {
    let mut trakt = TraktIntegration::new();
    assert!(matches!(trakt.update(Message::SyncTraktData, no_client()), Action::LoadCredentials));
    assert!(trakt.sync_trakt_account);
    let env = || Ok(Client { client_id: "env-id".to_string(), client_secret: "s".to_string() });
    let credentials = Credentials {
        data: Some((
            UserSettings { username: "u".to_string(), slug: "slug".to_string() },
            TokenResponse { access_token: "t".to_string() },
        )),
    };
    trakt.update(Message::CredentialsLoaded(credentials), env());
    assert!(!trakt.sync_trakt_account);
    trakt.update(Message::StartPage(StartPageMessage::ImportTraktData), env());
    assert_eq!(trakt.subscription(), Subscription::TraktDataImport);
    match trakt.update(Message::ImportPage(ImportPageMessage::ImportEvent(ImportEvent::Ready)), env()) {
        Action::StartImport(input) => {
            assert_eq!(input.client_id, "env-id");
            assert_eq!(input.slug, "slug");
        },
        other => panic!("unexpected action {:?}", other),
    }
    trakt.update(Message::ImportPage(ImportPageMessage::ImportEvent(ImportEvent::Progressing(3, 1))), env());
    if let Some(SetupStep::Import(page)) = &trakt.setup_page {
        assert_eq!(page.status(), ImportStatus::Importing);
        assert_eq!(page.progress_label(), "1 / 3");
    }
    let failed = vec![TraktShow { title: "Lost".to_string(), year: 2004 }];
    match trakt.update(
        Message::ImportPage(ImportPageMessage::ImportEvent(ImportEvent::WorkFinished(Ok((
            vec![(10, imported("Dark", 10)), (11, imported("Fargo", 11))],
            failed,
        ))))),
        env(),
    ) {
        Action::StoreImportedSeries(stored) => {
            assert_eq!(stored.len(), 2);
            assert_eq!(stored[0].0, 10);
            assert_eq!(stored[0].1.name, "Dark");
            assert_eq!(stored[0].1.watched_episodes, vec![(1, 1), (1, 2)]);
            assert!(stored[0].1.is_tracked);
            assert_eq!(stored[1].0, 11);
            assert_eq!(stored[1].1.name, "Fargo");
            assert!(stored[1].1.is_tracked);
        },
        other => panic!("unexpected action {:?}", other),
    }
    if let Some(SetupStep::Import(page)) = &trakt.setup_page {
        assert_eq!(page.status(), ImportStatus::FailedImports);
        assert_eq!(ImportPage::failed_import_label(&page.failed_imports[0]), "Lost (2004)");
    }
}

#[test]
fn import_page_statuses() {
    let mut page = ImportPage::new("id".to_string(), "slug".to_string());
    assert_eq!(page.status(), ImportStatus::Waiting);
    page.update(ImportPageMessage::ImportEvent(ImportEvent::WorkFinished(Err("boom".to_string()))));
    assert_eq!(page.status(), ImportStatus::Failed);
    let mut page = ImportPage::new("id".to_string(), "slug".to_string());
    page.update(ImportPageMessage::ImportEvent(ImportEvent::WorkFinished(Ok((vec![], vec![])))));
    assert_eq!(page.status(), ImportStatus::Successful);
    let input = ImportInput::new("a".to_string(), "b".to_string());
    assert_eq!(input.slug, "b");
}
