//! The step-by-step setup of the Trakt integration: connecting an account,
//! entering client information, authorising the program, confirming the
//! account and importing its shows.
//!
//! The setup is a state machine: each message yields the next state and an
//! [`Action`] that the caller performs (reading or writing files, calling the
//! Trakt API, talking to the workers) and whose outcome comes back as a
//! message.

use vstd::prelude::*;

pub mod code_authentication;
pub mod trakt_data_import;

use crate::helpers::{decimal, push_decimal, push_decimal_usize};
use crate::trakt_integration::trakt_data_import::{all_marked_tracked, mark_all_tracked, ImportedSeries};

verus! {

/// The client information of the program on Trakt.
#[derive(Debug, Clone)]
pub struct Client {
    pub client_id: String,
    pub client_secret: String,
}

impl Client {
    /// A copy of the client information.
    pub fn duplicate(&self) -> (c: Self)
        ensures
            c == *self,
    {
        Client { client_id: self.client_id.clone(), client_secret: self.client_secret.clone() }
    }
}

/// The answer of Trakt to a device code request.
#[derive(Debug, Clone)]
pub struct CodeResponse {
    pub device_code: String,
    pub user_code: String,
    pub verification_url: String,
    /// Seconds until the code expires.
    pub expires_in: u32,
    /// Seconds between two polls for the token.
    pub interval: u32,
}

impl CodeResponse {
    /// A copy of the code response.
    pub fn duplicate(&self) -> (c: Self)
        ensures
            c == *self,
    {
        CodeResponse {
            device_code: self.device_code.clone(),
            user_code: self.user_code.clone(),
            verification_url: self.verification_url.clone(),
            expires_in: self.expires_in,
            interval: self.interval,
        }
    }
}

/// The token Trakt grants once the user authorised the program.
#[derive(Debug, Clone)]
pub struct TokenResponse {
    pub access_token: String,
}

impl TokenResponse {
    /// A copy of the token.
    pub fn duplicate(&self) -> (t: Self)
        ensures
            t == *self,
    {
        TokenResponse { access_token: self.access_token.clone() }
    }
}

/// The settings of a Trakt user.
#[derive(Debug, Clone)]
pub struct UserSettings {
    pub username: String,
    pub slug: String,
}

/// The saved Trakt credentials: the user and the token, when an account is
/// connected.
#[derive(Debug, Clone)]
pub struct Credentials {
    pub data: Option<(UserSettings, TokenResponse)>,
}

impl Credentials {
    pub fn new(token_response: TokenResponse, user_settings: UserSettings) -> (c: Self)
        ensures
            c.data == Some((user_settings, token_response)),
    {
        Credentials { data: Some((user_settings, token_response)) }
    }
}

/// A show of a Trakt account.
#[derive(Debug, Clone)]
pub struct TraktShow {
    pub title: String,
    pub year: u32,
}

/// What the caller has to do after a message was handled.
#[derive(Debug)]
pub enum Action {
    /// Nothing to do.
    Nothing,
    /// Load the credentials from their file; answer `CredentialsLoaded`.
    LoadCredentials,
    /// Remove the credentials file; answer `StartPageMessage::AccountRemoved`.
    RemoveCredentials,
    /// Ask Trakt for a device code for this client id; answer
    /// `ClientPageMessage::CodeReceived`.
    RequestDeviceCode(String),
    /// Set the client id and secret as environment variables.
    SetClientVariables(String, String),
    /// Send this input to the authentication worker.
    Authenticate(code_authentication::Input),
    /// Load the user settings for this client id and access token; answer
    /// `ProgramAuthenticationPageMessage::UserSettingsLoaded`.
    LoadUserSettings(String, String),
    /// Copy this text to the clipboard.
    CopyToClipboard(String),
    /// Open this url in the browser.
    OpenUrl(String),
    /// Save these credentials; answer `ConfirmationPageMessage::CredentialsSaved`.
    SaveCredentials(Credentials),
    /// Send this input to the import worker.
    StartImport(trakt_data_import::Input),
    /// Store each of these series in the database under its id; each is
    /// already marked as tracked.
    StoreImportedSeries(Vec<(u32, ImportedSeries)>),
}

/// Which background worker the setup needs running.
#[derive(Debug, Clone, Copy, PartialEq, Eq, Structural)]
pub enum Subscription {
    /// No worker.
    Idle,
    CodeAuthentication,
    TraktDataImport,
}

#[derive(Debug, Clone)]
pub enum StartPageMessage {
    ConnectAccount,
    RemoveAccount,
    AccountRemoved,
    ClientManualSetup,
    ImportTraktData,
}

#[derive(Debug)]
pub enum ClientPageMessage {
    ClientIdChanged(String),
    ClientSecretChanged(String),
    CodeReceived(Result<CodeResponse, String>),
    ToggleClientIdView,
    ToggleClientSecretView,
    ToggleClientInformation,
    Submit,
}

#[derive(Debug, Clone)]
pub enum ProgramAuthenticationPageMessage {
    AuthenticationEvent(code_authentication::Event),
    UserSettingsLoaded(UserSettings),
    CopyCodeToClipboard,
    OpenVerificationUrl,
}

#[derive(Debug, Clone)]
pub enum ConfirmationPageMessage {
    SaveCredentials,
    CredentialsSaved,
}

#[derive(Debug)]
pub enum ImportPageMessage {
    ImportEvent(trakt_data_import::Event),
}

#[derive(Debug)]
pub enum Message {
    StartPage(StartPageMessage),
    ClientPage(ClientPageMessage),
    ProgramAuthenticationPage(ProgramAuthenticationPageMessage),
    ConfirmationPage(ConfirmationPageMessage),
    ImportPage(ImportPageMessage),
    LoadCredentials,
    CredentialsLoaded(Credentials),
    SyncTraktData,
    Cancel,
}

/// Why the start page was opened.
#[derive(Debug)]
pub enum StartPageMode {
    /// To connect, reconnect or remove an account.
    AccountConfiguration,
    /// To import the shows of the account, with the client information read
    /// from the environment.
    TraktDataSync(Result<Client, String>),
}

/// The first page: the account status and what can be done with it.
#[derive(Debug)]
pub struct StartPage {
    pub credentials: Credentials,
    pub page_mode: StartPageMode,
}

/// Why the client page was opened.
#[derive(Debug, Clone, Copy, PartialEq, Eq, Structural)]
pub enum ClientPageMode {
    /// To connect an account.
    AccountConfiguration,
    /// To set the client information as environment variables.
    SettingEnvironmentVariables,
}

/// The page where the client information is shown or entered.
#[derive(Debug)]
pub struct ClientPage {
    /// The client information read from the environment.
    pub client: Result<Client, String>,
    pub client_id: String,
    pub client_secret: String,
    pub show_client_id: bool,
    pub show_client_secret: bool,
    pub show_client_information: bool,
    pub code_loading: bool,
    pub response_error: Option<String>,
    pub client_page_mode: ClientPageMode,
}

/// The page where the user authorises the program with a code.
#[derive(Debug)]
pub struct ProgramAuthenticationPage {
    pub code: CodeResponse,
    pub client: Client,
    /// Seconds left before the code expires.
    pub count_down: u32,
    pub token_response: Option<TokenResponse>,
    pub token_response_loaded: bool,
}

/// The page where the connected account is confirmed.
#[derive(Debug)]
pub struct ConfirmationPage {
    pub token_response: TokenResponse,
    pub user_settings: UserSettings,
}

/// The page that shows the progress of an import.
#[derive(Debug)]
pub struct ImportPage {
    pub client_id: String,
    pub slug: String,
    /// `(total number of imports, number of the current import)`.
    pub progress: (usize, usize),
    pub failed_imports: Vec<TraktShow>,
    /// Whether the import is over, and the error that stopped it.
    pub import_complete: (bool, Option<String>),
}

/// The page of the setup shown, or the end of the setup.
#[derive(Debug)]
pub enum SetupStep {
    /// The setup is over: no page is shown.
    Done,
    Start(StartPage),
    Client(ClientPage),
    ProgramAuthentication(ProgramAuthenticationPage),
    Confirmation(ConfirmationPage),
    Import(ImportPage),
}

/// The state of the Trakt integration widget.
#[derive(Debug)]
pub struct TraktIntegration {
    pub setup_page: Option<SetupStep>,
    pub sync_trakt_account: bool,
}

/// The page shown after a page asked to move to `next`: `SetupStep::Done`
/// ends the setup.
pub open spec fn page_after(current: Option<SetupStep>, next: Option<SetupStep>) -> Option<SetupStep> {
    match next {
        Some(SetupStep::Done) => None,
        Some(page) => Some(page),
        None => current,
    }
}

/// A setup page is shown, never the `Done` step.
pub open spec fn setup_page_valid(setup_page: Option<SetupStep>) -> bool {
    !(setup_page matches Some(SetupStep::Done))
}

/// What the start page does with `message`: the page that opens next, if
/// any, and the action.
pub open spec fn start_page_step(
    page: StartPage,
    message: StartPageMessage,
    next: Option<SetupStep>,
    a: Action,
    environment_client: Result<Client, String>,
) -> bool {
    match message {
        StartPageMessage::ConnectAccount => a is Nothing && (next matches Some(SetupStep::Client(p))
            && p.is_initial(ClientPageMode::AccountConfiguration, environment_client)),
        StartPageMessage::RemoveAccount => a is RemoveCredentials && next is None,
        StartPageMessage::AccountRemoved => a is Nothing && next matches Some(SetupStep::Done),
        StartPageMessage::ClientManualSetup => a is Nothing && (next matches Some(SetupStep::Client(p))
            && p.is_initial(ClientPageMode::SettingEnvironmentVariables, environment_client)),
        StartPageMessage::ImportTraktData => a is Nothing && (page.page_mode matches StartPageMode::TraktDataSync(
            Ok(client),
        ) && page.credentials.data matches Some(data) && next matches Some(SetupStep::Import(p)) && p.is_initial(
            client.client_id,
            data.0.slug,
        )),
    }
}

impl StartPage {
    pub fn new(credentials: Credentials, start_page_mode: StartPageMode) -> (p: Self)
        ensures
            p.credentials == credentials,
            p.page_mode == start_page_mode,
    {
        Self { credentials, page_mode: start_page_mode }
    }

    /// Whether the start page can handle `message`: importing needs the page
    /// opened to sync data, client information, and a connected account.
    pub open spec fn accepts(&self, message: StartPageMessage) -> bool {
        message matches StartPageMessage::ImportTraktData ==> (self.page_mode matches StartPageMode::TraktDataSync(Ok(_))
            && self.credentials.data is Some)
    }

    pub fn update(
        &self,
        message: StartPageMessage,
        next_page: &mut Option<SetupStep>,
        environment_client: Result<Client, String>,
    ) -> (a: Action)
        requires
            self.accepts(message),
            *old(next_page) is None,
        ensures
            start_page_step(*self, message, *final(next_page), a, environment_client),
    {
        match message {
            StartPageMessage::ConnectAccount => {
                let client_page = ClientPage::new(ClientPageMode::AccountConfiguration, environment_client);
                *next_page = Some(SetupStep::Client(client_page));
                Action::Nothing
            },
            StartPageMessage::RemoveAccount => Action::RemoveCredentials,
            StartPageMessage::AccountRemoved => {
                *next_page = Some(SetupStep::Done);
                Action::Nothing
            },
            StartPageMessage::ClientManualSetup => {
                let client_page = ClientPage::new(ClientPageMode::SettingEnvironmentVariables, environment_client);
                *next_page = Some(SetupStep::Client(client_page));
                Action::Nothing
            },
            StartPageMessage::ImportTraktData => {
                match (&self.page_mode, &self.credentials.data) {
                    (StartPageMode::TraktDataSync(Ok(client)), Some(data)) => {
                        let import_page = ImportPage::new(client.client_id.clone(), data.0.slug.clone());
                        *next_page = Some(SetupStep::Import(import_page));
                    },
                    _ => {},
                }
                Action::Nothing
            },
        }
    }
}

/// What the client page does with `message`: the page after it, the page
/// that opens next, if any, and the action.
pub open spec fn client_page_step(
    page: ClientPage,
    message: ClientPageMessage,
    after: ClientPage,
    next: Option<SetupStep>,
    a: Action,
) -> bool {
    match message {
        ClientPageMessage::ClientIdChanged(t) => a is Nothing && next is None && after == ClientPage {
            client_id: t,
            ..page
        },
        ClientPageMessage::ClientSecretChanged(t) => a is Nothing && next is None && after == ClientPage {
            client_secret: t,
            ..page
        },
        ClientPageMessage::Submit => after == ClientPage { code_loading: true, ..page } && (
        if page.client_page_mode == ClientPageMode::AccountConfiguration {
            a == Action::RequestDeviceCode(page.requested_client_id()) && next is None
        } else {
            a == Action::SetClientVariables(page.client_id, page.client_secret) && next matches Some(SetupStep::Done)
        }),
        ClientPageMessage::CodeReceived(Ok(code)) => a is Nothing && after == page && (
        if page.client_page_mode == ClientPageMode::AccountConfiguration {
            next matches Some(SetupStep::ProgramAuthentication(p)) && p.is_initial(code, page.client_to_authenticate())
        } else {
            next matches Some(SetupStep::Done)
        }),
        ClientPageMessage::CodeReceived(Err(e)) => a is Nothing && next is None && after == ClientPage {
            response_error: Some(e),
            ..page
        },
        ClientPageMessage::ToggleClientIdView => a is Nothing && next is None && after == ClientPage {
            show_client_id: !page.show_client_id,
            ..page
        },
        ClientPageMessage::ToggleClientSecretView => a is Nothing && next is None && after == ClientPage {
            show_client_secret: !page.show_client_secret,
            ..page
        },
        ClientPageMessage::ToggleClientInformation => a is Nothing && next is None && after == ClientPage {
            show_client_information: !page.show_client_information,
            ..page
        },
    }
}

impl ClientPage {
    /// Whether this is a client page just opened in `client_page_mode` with the
    /// client information `client` read from the environment.
    pub open spec fn is_initial(&self, client_page_mode: ClientPageMode, client: Result<Client, String>) -> bool {
        &&& self.client == client
        &&& self.client_id@ == Seq::<char>::empty()
        &&& self.client_secret@ == Seq::<char>::empty()
        &&& !self.show_client_id
        &&& !self.show_client_secret
        &&& !self.show_client_information
        &&& !self.code_loading
        &&& self.response_error is None
        &&& self.client_page_mode == client_page_mode
    }

    pub fn new(client_page_mode: ClientPageMode, client: Result<Client, String>) -> (p: Self)
        ensures
            p.is_initial(client_page_mode, client),
    {
        Self {
            client,
            client_id: String::new(),
            client_secret: String::new(),
            show_client_id: false,
            show_client_secret: false,
            show_client_information: false,
            code_loading: false,
            response_error: None,
            client_page_mode,
        }
    }

    /// The client the device code is requested for: the one read from the
    /// environment, or else the one entered.
    pub open spec fn requested_client_id(&self) -> String {
        match self.client {
            Ok(client) => client.client_id,
            Err(_) => self.client_id,
        }
    }

    /// Whether the submit button can be pressed: the client information was
    /// read from the environment, or both fields were filled in.
    pub fn submit_enabled(&self) -> (b: bool)
        ensures
            b == ((self.client_id@.len() > 0 && self.client_secret@.len() > 0) || self.client is Ok),
    {
        (self.client_id.as_str().unicode_len() > 0 && self.client_secret.as_str().unicode_len() > 0)
            || self.client.is_ok()
    }

    pub fn update(&mut self, message: ClientPageMessage, next_page: &mut Option<SetupStep>) -> (a: Action)
        requires
            *old(next_page) is None,
        ensures
            client_page_step(*old(self), message, *final(self), *final(next_page), a),
    {
        match message {
            ClientPageMessage::ClientIdChanged(text) => {
                self.client_id = text;
            },
            ClientPageMessage::ClientSecretChanged(text) => {
                self.client_secret = text;
            },
            ClientPageMessage::Submit => {
                self.code_loading = true;
                return match self.client_page_mode {
                    ClientPageMode::AccountConfiguration => match &self.client {
                        Ok(client) => Action::RequestDeviceCode(client.client_id.clone()),
                        Err(_) => Action::RequestDeviceCode(self.client_id.clone()),
                    },
                    ClientPageMode::SettingEnvironmentVariables => {
                        *next_page = Some(SetupStep::Done);
                        Action::SetClientVariables(self.client_id.clone(), self.client_secret.clone())
                    },
                };
            },
            ClientPageMessage::CodeReceived(code_response) => match code_response {
                Ok(code_response) => {
                    let client = match &self.client {
                        Ok(client) => client.duplicate(),
                        Err(_) => Client {
                            client_id: self.client_id.clone(),
                            client_secret: self.client_secret.clone(),
                        },
                    };
                    match self.client_page_mode {
                        ClientPageMode::AccountConfiguration => {
                            *next_page = Some(
                                SetupStep::ProgramAuthentication(ProgramAuthenticationPage::new(code_response, client)),
                            );
                        },
                        ClientPageMode::SettingEnvironmentVariables => {
                            *next_page = Some(SetupStep::Done);
                        },
                    };
                },
                Err(err) => self.response_error = Some(err),
            },
            ClientPageMessage::ToggleClientIdView => {
                self.show_client_id = !self.show_client_id;
            },
            ClientPageMessage::ToggleClientSecretView => {
                self.show_client_secret = !self.show_client_secret;
            },
            ClientPageMessage::ToggleClientInformation => {
                self.show_client_information = !self.show_client_information;
            },
        };
        Action::Nothing
    }

    /// The client that the program is authenticated with: the one read from
    /// the environment, or else the one entered.
    pub open spec fn client_to_authenticate(&self) -> Client {
        match self.client {
            Ok(client) => client,
            Err(_) => Client { client_id: self.client_id, client_secret: self.client_secret },
        }
    }
}

/// When the device code arrives for an account being connected, the
/// authentication page opens with that code and with the client the code
/// was asked for: the client read from the environment when there is one,
/// else the client id and secret entered on the page.
pub proof fn lemma_code_authenticates_client(
    page: ClientPage,
    code: CodeResponse,
    after: ClientPage,
    next: Option<SetupStep>,
    a: Action,
)
    requires
        page.client_page_mode == ClientPageMode::AccountConfiguration,
        client_page_step(page, ClientPageMessage::CodeReceived(Ok(code)), after, next, a),
    ensures
        next matches Some(SetupStep::ProgramAuthentication(p)) && p.code == code && (match page.client {
            Ok(c) => p.client == c,
            Err(_) => p.client == Client { client_id: page.client_id, client_secret: page.client_secret },
        }),
{
}

/// Submitting the client page and then receiving the device code: the
/// authentication page that opens holds the client whose id the device code
/// was requested for.
pub proof fn lemma_code_requested_and_authenticated_for_same_client(
    page: ClientPage,
    submitted: ClientPage,
    next1: Option<SetupStep>,
    a1: Action,
    code: CodeResponse,
    received: ClientPage,
    next2: Option<SetupStep>,
    a2: Action,
)
    requires
        page.client_page_mode == ClientPageMode::AccountConfiguration,
        client_page_step(page, ClientPageMessage::Submit, submitted, next1, a1),
        client_page_step(submitted, ClientPageMessage::CodeReceived(Ok(code)), received, next2, a2),
    ensures
        a1 matches Action::RequestDeviceCode(id) && next2 matches Some(SetupStep::ProgramAuthentication(p))
            && p.client.client_id == id && p.code == code,
{
}

/// What the authentication page does with `message`: the page after it,
/// the page that opens next, if any, and the action.
pub open spec fn authentication_page_step(
    page: ProgramAuthenticationPage,
    message: ProgramAuthenticationPageMessage,
    after: ProgramAuthenticationPage,
    next: Option<SetupStep>,
    a: Action,
) -> bool {
    match message {
        ProgramAuthenticationPageMessage::AuthenticationEvent(code_authentication::Event::Ready) => next is None
            && after == page && (if page.token_response_loaded {
            a is Nothing
        } else {
            a == Action::Authenticate(code_authentication::Input::AuthenticateCode(page.code, page.client))
        }),
        ProgramAuthenticationPageMessage::AuthenticationEvent(code_authentication::Event::WorkFinished(token)) => {
            &&& next is None
            &&& match token {
                Some(t) => after == ProgramAuthenticationPage {
                    token_response: Some(t),
                    token_response_loaded: true,
                    ..page
                } && a == Action::LoadUserSettings(page.client.client_id, t.access_token),
                None => after == ProgramAuthenticationPage { token_response_loaded: true, ..page } && a is Nothing,
            }
        },
        ProgramAuthenticationPageMessage::AuthenticationEvent(code_authentication::Event::Progressing) => next is None
            && a is Nothing && after == ProgramAuthenticationPage {
            count_down: (page.count_down - page.code.interval) as u32,
            ..page
        },
        ProgramAuthenticationPageMessage::CopyCodeToClipboard => next is None && after == page && a
            == Action::CopyToClipboard(page.code.user_code),
        ProgramAuthenticationPageMessage::OpenVerificationUrl => next is None && after == page && a == Action::OpenUrl(
            page.code.verification_url,
        ),
        ProgramAuthenticationPageMessage::UserSettingsLoaded(user_settings) => a is Nothing && after == page && (
        page.token_response matches Some(token) && next matches Some(SetupStep::Confirmation(p)) && p.token_response
            == token && p.user_settings == user_settings),
    }
}

impl ProgramAuthenticationPage {
    /// Whether this is an authentication page just opened for `code` and `client`.
    pub open spec fn is_initial(&self, code: CodeResponse, client: Client) -> bool {
        &&& self.code == code
        &&& self.client == client
        &&& self.count_down == code.expires_in
        &&& self.token_response is None
        &&& !self.token_response_loaded
    }

    pub fn new(code_response: CodeResponse, client: Client) -> (p: Self)
        ensures
            p.is_initial(code_response, client),
    {
        let count_down = code_response.expires_in;
        Self { code: code_response, client, count_down, token_response: None, token_response_loaded: false }
    }

    /// Whether the page can handle `message`: a poll cannot bring the count
    /// down below zero, and the user settings come after the token.
    pub open spec fn accepts(&self, message: ProgramAuthenticationPageMessage) -> bool {
        &&& message matches ProgramAuthenticationPageMessage::AuthenticationEvent(code_authentication::Event::Progressing)
            ==> self.count_down >= self.code.interval
        &&& message matches ProgramAuthenticationPageMessage::UserSettingsLoaded(_) ==> self.token_response is Some
    }

    pub fn update(&mut self, message: ProgramAuthenticationPageMessage, next_page: &mut Option<SetupStep>) -> (a: Action)
        requires
            old(self).accepts(message),
            *old(next_page) is None,
        ensures
            authentication_page_step(*old(self), message, *final(self), *final(next_page), a),
    {
        match message {
            ProgramAuthenticationPageMessage::AuthenticationEvent(event) => match event {
                code_authentication::Event::Ready => {
                    if !self.token_response_loaded {
                        return Action::Authenticate(
                            code_authentication::Input::AuthenticateCode(self.code.duplicate(), self.client.duplicate()),
                        );
                    }
                },
                code_authentication::Event::WorkFinished(token) => {
                    self.token_response_loaded = true;
                    if let Some(token) = token {
                        let access_token = token.access_token.clone();
                        let client_id = self.client.client_id.clone();
                        self.token_response = Some(token);
                        return Action::LoadUserSettings(client_id, access_token);
                    }
                },
                code_authentication::Event::Progressing => self.count_down = self.count_down - self.code.interval,
            },
            ProgramAuthenticationPageMessage::CopyCodeToClipboard => {
                return Action::CopyToClipboard(self.code.user_code.clone());
            },
            ProgramAuthenticationPageMessage::OpenVerificationUrl => {
                return Action::OpenUrl(self.code.verification_url.clone());
            },
            ProgramAuthenticationPageMessage::UserSettingsLoaded(user_settings) => {
                match &self.token_response {
                    Some(token) => {
                        *next_page = Some(
                            SetupStep::Confirmation(ConfirmationPage::new(token.duplicate(), user_settings)),
                        );
                    },
                    None => {},
                }
            },
        }
        Action::Nothing
    }
}

/// What the confirmation page does with `message`: the page that opens
/// next, if any, and the action.
pub open spec fn confirmation_page_step(
    page: ConfirmationPage,
    message: ConfirmationPageMessage,
    next: Option<SetupStep>,
    a: Action,
) -> bool {
    match message {
        ConfirmationPageMessage::SaveCredentials => next is None && (a matches Action::SaveCredentials(c) && c.data
            == Some((page.user_settings, page.token_response))),
        ConfirmationPageMessage::CredentialsSaved => a is Nothing && next matches Some(SetupStep::Done),
    }
}

impl ConfirmationPage {
    pub fn new(token_response: TokenResponse, user_settings: UserSettings) -> (p: Self)
        ensures
            p.token_response == token_response,
            p.user_settings == user_settings,
    {
        Self { token_response, user_settings }
    }

    pub fn update(&self, message: ConfirmationPageMessage, next_page: &mut Option<SetupStep>) -> (a: Action)
        requires
            *old(next_page) is None,
        ensures
            confirmation_page_step(*self, message, *final(next_page), a),
    {
        match message {
            ConfirmationPageMessage::SaveCredentials => {
                let credentials = Credentials::new(
                    self.token_response.duplicate(),
                    UserSettings { username: self.user_settings.username.clone(), slug: self.user_settings.slug.clone() },
                );
                Action::SaveCredentials(credentials)
            },
            ConfirmationPageMessage::CredentialsSaved => {
                *next_page = Some(SetupStep::Done);
                Action::Nothing
            },
        }
    }
}

/// What the import page does with `message`: the page after it and the
/// action.
pub open spec fn import_page_step(page: ImportPage, message: ImportPageMessage, after: ImportPage, a: Action) -> bool {
    match message {
        ImportPageMessage::ImportEvent(trakt_data_import::Event::Ready) => after == page && (
        if page.import_complete.0 {
            a is Nothing
        } else {
            a matches Action::StartImport(input) && input.client_id == page.client_id && input.slug == page.slug
        }),
        ImportPageMessage::ImportEvent(trakt_data_import::Event::WorkFinished(Ok(imports))) => after == ImportPage {
            failed_imports: imports.1,
            import_complete: (true, page.import_complete.1),
            ..page
        } && (a matches Action::StoreImportedSeries(stored) && stored@ == all_marked_tracked(imports.0@)),
        ImportPageMessage::ImportEvent(trakt_data_import::Event::WorkFinished(Err(e))) => after == ImportPage {
            import_complete: (true, Some(e)),
            ..page
        } && a is Nothing,
        ImportPageMessage::ImportEvent(trakt_data_import::Event::Progressing(total, current)) => after == ImportPage {
            progress: (total, current),
            ..page
        } && a is Nothing,
    }
}

/// What the import page shows.
#[derive(Debug, Clone, Copy, PartialEq, Eq, Structural)]
pub enum ImportStatus {
    /// A progress bar: the import is running and not all shows are done.
    Importing,
    /// The list of shows that could not be imported.
    FailedImports,
    /// The import is running and no progress can be shown.
    Waiting,
    /// The import stopped on an error.
    Failed,
    /// The import is done and every show was imported.
    Successful,
}

impl ImportPage {
    /// Whether this is an import page just opened for the client id and slug.
    pub open spec fn is_initial(&self, client_id: String, slug: String) -> bool {
        &&& self.client_id == client_id
        &&& self.slug == slug
        &&& self.progress == (0usize, 0usize)
        &&& self.failed_imports@ == Seq::<TraktShow>::empty()
        &&& self.import_complete.0 == false
        &&& self.import_complete.1 is None
    }

    pub fn new(client_id: String, slug: String) -> (p: Self)
        ensures
            p.is_initial(client_id, slug),
    {
        Self { client_id, slug, progress: (0, 0), failed_imports: Vec::new(), import_complete: (false, None) }
    }

    pub fn update(&mut self, message: ImportPageMessage) -> (a: Action)
        ensures
            import_page_step(*old(self), message, *final(self), a),
    {
        match message {
            ImportPageMessage::ImportEvent(event) => match event {
                trakt_data_import::Event::Ready => {
                    if !self.import_complete.0 {
                        return Action::StartImport(
                            trakt_data_import::Input::new(self.client_id.clone(), self.slug.clone()),
                        );
                    }
                    Action::Nothing
                },
                trakt_data_import::Event::WorkFinished(imports) => {
                    let action = match imports {
                        Ok(imports) => {
                            let (mut imported, failed) = imports;
                            mark_all_tracked(&mut imported);
                            self.failed_imports = failed;
                            Action::StoreImportedSeries(imported)
                        },
                        Err(err) => {
                            self.import_complete.1 = Some(err);
                            Action::Nothing
                        },
                    };
                    self.import_complete.0 = true;
                    action
                },
                trakt_data_import::Event::Progressing(total_imports, current_import) => {
                    self.progress = (total_imports, current_import);
                    Action::Nothing
                },
            },
        }
    }

    /// What the page shows.
    pub fn status(&self) -> (s: ImportStatus)
        ensures
            s == (if self.progress.0 != self.progress.1 && !self.import_complete.0 {
                ImportStatus::Importing
            } else if self.failed_imports@.len() > 0 && self.import_complete.0 {
                ImportStatus::FailedImports
            } else if !self.import_complete.0 {
                ImportStatus::Waiting
            } else if self.import_complete.1 is Some {
                ImportStatus::Failed
            } else {
                ImportStatus::Successful
            }),
    {
        let total_imports = self.progress.0;
        let current_import = self.progress.1;
        if total_imports != current_import && !self.import_complete.0 {
            ImportStatus::Importing
        } else if self.failed_imports.len() > 0 && self.import_complete.0 {
            ImportStatus::FailedImports
        } else if !self.import_complete.0 {
            ImportStatus::Waiting
        } else if self.import_complete.1.is_some() {
            ImportStatus::Failed
        } else {
            ImportStatus::Successful
        }
    }
}


/// What the Trakt integration does with `message`: the widget after it and
/// the action; `environment_client` is the client information read from the
/// environment.
pub open spec fn trakt_step(
    t: TraktIntegration,
    message: Message,
    environment_client: Result<Client, String>,
    after: TraktIntegration,
    a: Action,
) -> bool {
    &&& setup_page_valid(t.setup_page) ==> setup_page_valid(after.setup_page)
    &&& match message {
        Message::LoadCredentials => a is LoadCredentials && after == t,
        Message::SyncTraktData => a is LoadCredentials && after == TraktIntegration { sync_trakt_account: true, ..t },
        Message::Cancel => a is Nothing && after == TraktIntegration { setup_page: None, ..t },
        Message::CredentialsLoaded(credentials) => {
            &&& a is Nothing
            &&& !after.sync_trakt_account
            &&& after.setup_page matches Some(SetupStep::Start(p)) && p.credentials == credentials && (
            if t.sync_trakt_account {
                p.page_mode == StartPageMode::TraktDataSync(environment_client)
            } else {
                p.page_mode is AccountConfiguration
            })
        },
        _ => after.sync_trakt_account == t.sync_trakt_account,
    }
    &&& match (message, t.setup_page) {
        (Message::StartPage(m), Some(SetupStep::Start(p))) => exists|next: Option<SetupStep>|
            #[trigger] start_page_step(p, m, next, a, environment_client) && after.setup_page == after_step(
                next,
                SetupStep::Start(p),
            ),
        (Message::StartPage(_), _) => a is Nothing && after.setup_page == t.setup_page,
        (Message::ClientPage(m), Some(SetupStep::Client(p))) => exists|page: ClientPage, next: Option<SetupStep>|
            #[trigger] client_page_step(p, m, page, next, a) && after.setup_page == after_step(
                next,
                SetupStep::Client(page),
            ),
        (Message::ClientPage(_), _) => a is Nothing && after.setup_page == t.setup_page,
        (
            Message::ProgramAuthenticationPage(m),
            Some(SetupStep::ProgramAuthentication(p)),
        ) => exists|page: ProgramAuthenticationPage, next: Option<SetupStep>|
            #[trigger] authentication_page_step(p, m, page, next, a) && after.setup_page == after_step(
                next,
                SetupStep::ProgramAuthentication(page),
            ),
        (Message::ProgramAuthenticationPage(_), _) => a is Nothing && after.setup_page == t.setup_page,
        (Message::ConfirmationPage(m), Some(SetupStep::Confirmation(p))) => exists|next: Option<SetupStep>|
            #[trigger] confirmation_page_step(p, m, next, a) && after.setup_page == after_step(
                next,
                SetupStep::Confirmation(p),
            ),
        (Message::ConfirmationPage(_), _) => a is Nothing && after.setup_page == t.setup_page,
        (Message::ImportPage(m), Some(SetupStep::Import(p))) => exists|page: ImportPage|
            #[trigger] import_page_step(p, m, page, a) && after.setup_page == Some(SetupStep::Import(page)),
        (Message::ImportPage(_), _) => a is Nothing && after.setup_page == t.setup_page,
        _ => true,
    }
}

/// Whatever message the integration handles, it never shows the end step
/// of the setup as a page when it did not show it before, and cancelling
/// closes the setup.
pub proof fn lemma_setup_never_shows_done(
    t: TraktIntegration,
    message: Message,
    environment_client: Result<Client, String>,
    after: TraktIntegration,
    a: Action,
)
    requires
        setup_page_valid(t.setup_page),
        trakt_step(t, message, environment_client, after, a),
    ensures
        setup_page_valid(after.setup_page),
        message is Cancel ==> after.setup_page is None,
{
}

impl TraktIntegration {
    pub fn new() -> (t: Self)
        ensures
            t.setup_page is None,
            !t.sync_trakt_account,
    {
        Self { setup_page: None, sync_trakt_account: false }
    }

    /// The worker the shown page needs.
    pub fn subscription(&self) -> (s: Subscription)
        ensures
            self.setup_page matches Some(SetupStep::ProgramAuthentication(_)) ==> s == Subscription::CodeAuthentication,
            self.setup_page matches Some(SetupStep::Import(_)) ==> s == Subscription::TraktDataImport,
            !(self.setup_page matches Some(SetupStep::ProgramAuthentication(_))) && !(self.setup_page matches Some(
                SetupStep::Import(_),
            )) ==> s == Subscription::Idle,
    {
        match &self.setup_page {
            Some(SetupStep::ProgramAuthentication(_)) => Subscription::CodeAuthentication,
            Some(SetupStep::Import(_)) => Subscription::TraktDataImport,
            _ => Subscription::Idle,
        }
    }

    /// Whether `message` can be handled in this state (see the pages'
    /// `accepts`).
    pub open spec fn accepts(&self, message: Message) -> bool {
        match (message, self.setup_page) {
            (Message::StartPage(m), Some(SetupStep::Start(p))) => p.accepts(m),
            (Message::ProgramAuthenticationPage(m), Some(SetupStep::ProgramAuthentication(p))) => p.accepts(m),
            _ => true,
        }
    }

    /// Handles a message; `environment_client` is the client information read
    /// from the environment at this moment, used when a page that needs it
    /// opens.
    pub fn update(&mut self, message: Message, environment_client: Result<Client, String>) -> (a: Action)
        requires
            old(self).accepts(message),
        ensures
            trakt_step(*old(self), message, environment_client, *final(self), a),
            (message matches Message::StartPage(StartPageMessage::AccountRemoved)) && (old(self).setup_page matches Some(
                SetupStep::Start(_),
            )) ==> final(self).setup_page is None,
            (message matches Message::ConfirmationPage(ConfirmationPageMessage::CredentialsSaved))
                && (old(self).setup_page matches Some(SetupStep::Confirmation(_))) ==> final(self).setup_page is None,
    {
        let ghost msg = message;
        let ghost before = self.setup_page;
        let mut next_page: Option<SetupStep> = None;
        let mut setup_page: Option<SetupStep> = None;
        std::mem::swap(&mut setup_page, &mut self.setup_page);
        let action = match message {
            Message::LoadCredentials => {
                self.setup_page = setup_page;
                Action::LoadCredentials
            },
            Message::CredentialsLoaded(credentials) => {
                let start_page_mode = if self.sync_trakt_account {
                    StartPageMode::TraktDataSync(environment_client)
                } else {
                    StartPageMode::AccountConfiguration
                };
                self.setup_page = Some(SetupStep::Start(StartPage::new(credentials, start_page_mode)));
                self.sync_trakt_account = false;
                Action::Nothing
            },
            Message::Cancel => {
                self.setup_page = None;
                Action::Nothing
            },
            Message::StartPage(message) => {
                let action = match &setup_page {
                    Some(SetupStep::Start(start_page)) => start_page.update(message, &mut next_page, environment_client),
                    _ => Action::Nothing,
                };
                self.setup_page = setup_page;
                action
            },
            Message::ClientPage(message) => {
                let action = match &mut setup_page {
                    Some(SetupStep::Client(client_page)) => client_page.update(message, &mut next_page),
                    _ => Action::Nothing,
                };
                self.setup_page = setup_page;
                action
            },
            Message::ProgramAuthenticationPage(message) => {
                let action = match &mut setup_page {
                    Some(SetupStep::ProgramAuthentication(page)) => page.update(message, &mut next_page),
                    _ => Action::Nothing,
                };
                self.setup_page = setup_page;
                action
            },
            Message::ConfirmationPage(message) => {
                let action = match &setup_page {
                    Some(SetupStep::Confirmation(page)) => page.update(message, &mut next_page),
                    _ => Action::Nothing,
                };
                self.setup_page = setup_page;
                action
            },
            Message::SyncTraktData => {
                self.setup_page = setup_page;
                self.sync_trakt_account = true;
                Action::LoadCredentials
            },
            Message::ImportPage(message) => {
                let action = match &mut setup_page {
                    Some(SetupStep::Import(page)) => page.update(message),
                    _ => Action::Nothing,
                };
                self.setup_page = setup_page;
                action
            },
        };
        let ghost page_after = self.setup_page;
        let ghost next = next_page;
        match next_page {
            Some(SetupStep::Done) => {
                self.setup_page = None;
            },
            Some(page) => {
                self.setup_page = Some(page);
            },
            None => {},
        }
        proof {
            match (msg, before) {
                (Message::StartPage(m), Some(SetupStep::Start(p))) => {
                    assert(start_page_step(p, m, next, action, environment_client));
                },
                (Message::ClientPage(m), Some(SetupStep::Client(p))) => {
                    if let Some(SetupStep::Client(after)) = page_after {
                        assert(client_page_step(p, m, after, next, action));
                    }
                },
                (Message::ProgramAuthenticationPage(m), Some(SetupStep::ProgramAuthentication(p))) => {
                    if let Some(SetupStep::ProgramAuthentication(after)) = page_after {
                        assert(authentication_page_step(p, m, after, next, action));
                    }
                },
                (Message::ConfirmationPage(m), Some(SetupStep::Confirmation(p))) => {
                    assert(confirmation_page_step(p, m, next, action));
                },
                (Message::ImportPage(m), Some(SetupStep::Import(p))) => {
                    if let Some(SetupStep::Import(after)) = page_after {
                        assert(import_page_step(p, m, after, action));
                    }
                },
                _ => {},
            }
        }
        action
    }
}

/// The page shown after a page handled a message: the page that opens
/// next, none once the setup is done, or else the page itself.
pub open spec fn after_step(next: Option<SetupStep>, current: SetupStep) -> Option<SetupStep> {
    match next {
        Some(SetupStep::Done) => None,
        Some(step) => Some(step),
        None => Some(current),
    }
}

/// What the client page shows.
#[derive(Debug)]
pub enum ClientPageView {
    /// `Error: <message>` in red: the device code request failed.
    Error(String),
    /// A spinner: the device code is awaited.
    Loading,
    /// The client information and the submit button.
    Form {
        /// `continue setup` when the client was read from the environment,
        /// else `submit`.
        button_label: &'static str,
        submit_enabled: bool,
        content: ClientContent,
    },
}

/// The middle of the client form.
#[derive(Debug, Clone, Copy)]
pub enum ClientContent {
    /// The client was read from the environment: shown or hidden, with the
    /// label of the button that toggles it.
    Loaded { shown: bool, toggle_label: &'static str },
    /// The client was not found: two fields to fill in, each shown in clear
    /// or masked, with the label of the button that toggles it.
    Manual { id_shown: bool, id_toggle_label: &'static str, secret_shown: bool, secret_toggle_label: &'static str },
}

/// The label of a button that shows or hides something shown (`shown`).
pub open spec fn toggle_label(shown: bool) -> Seq<char> {
    if shown { "hide"@ } else { "show"@ }
}

fn toggle_text(shown: bool) -> (s: &'static str)
    ensures
        s@ == toggle_label(shown),
{
    proof {
        reveal_strlit("hide");
        reveal_strlit("show");
    }
    if shown {
        "hide"
    } else {
        "show"
    }
}

impl ClientPage {
    /// What the page shows.
    pub fn view_state(&self) -> (v: ClientPageView)
        ensures
            match self.response_error {
                Some(e) => v matches ClientPageView::Error(t) && t@ == "Error: "@ + e@,
                None => if self.code_loading {
                    v is Loading
                } else {
                    v matches ClientPageView::Form { button_label, submit_enabled, content } && button_label@ == (
                    if self.client is Ok {
                        "continue setup"@
                    } else {
                        "submit"@
                    }) && submit_enabled == ((self.client_id@.len() > 0 && self.client_secret@.len() > 0)
                        || self.client is Ok) && (match self.client {
                        Ok(_) => content matches ClientContent::Loaded { shown, toggle_label: l } && shown
                            == self.show_client_information && l@ == toggle_label(
                            self.show_client_information,
                        ),
                        Err(_) => content matches ClientContent::Manual {
                            id_shown,
                            id_toggle_label,
                            secret_shown,
                            secret_toggle_label,
                        } && id_shown == self.show_client_id && id_toggle_label@ == toggle_label(self.show_client_id)
                            && secret_shown == self.show_client_secret && secret_toggle_label@ == toggle_label(
                            self.show_client_secret,
                        ),
                    })
                },
            },
    {
        proof {
            reveal_strlit("Error: ");
            reveal_strlit("continue setup");
            reveal_strlit("submit");
        }
        match &self.response_error {
            Some(error_msg) => {
                let mut t = String::from_str("Error: ");
                t.append(error_msg.as_str());
                ClientPageView::Error(t)
            },
            None => {
                if self.code_loading {
                    ClientPageView::Loading
                } else {
                    let button_label = if self.client.is_ok() {
                        "continue setup"
                    } else {
                        "submit"
                    };
                    let content = match &self.client {
                        Ok(_) => ClientContent::Loaded {
                            shown: self.show_client_information,
                            toggle_label: toggle_text(self.show_client_information),
                        },
                        Err(_) => ClientContent::Manual {
                            id_shown: self.show_client_id,
                            id_toggle_label: toggle_text(self.show_client_id),
                            secret_shown: self.show_client_secret,
                            secret_toggle_label: toggle_text(self.show_client_secret),
                        },
                    };
                    ClientPageView::Form { button_label, submit_enabled: self.submit_enabled(), content }
                }
            },
        }
    }
}

/// What the authentication page shows.
#[derive(Debug, Clone, Copy, PartialEq, Eq, Structural)]
pub enum AuthenticationView {
    /// The code, the address to visit and the seconds left.
    AwaitingUser,
    /// A spinner and `Loading account settings`: the token came.
    LoadingAccount,
    /// `could not retrieve authentication token` in red.
    TokenFailed,
}

/// `<seconds> seconds to expiration`.
pub open spec fn countdown_text(seconds: nat) -> Seq<char> {
    decimal(seconds) + " seconds to expiration"@
}

impl ProgramAuthenticationPage {
    /// What the page shows.
    pub fn view_state(&self) -> (v: AuthenticationView)
        ensures
            v == (if !self.token_response_loaded {
                AuthenticationView::AwaitingUser
            } else if self.token_response is Some {
                AuthenticationView::LoadingAccount
            } else {
                AuthenticationView::TokenFailed
            }),
    {
        if !self.token_response_loaded {
            AuthenticationView::AwaitingUser
        } else if self.token_response.is_some() {
            AuthenticationView::LoadingAccount
        } else {
            AuthenticationView::TokenFailed
        }
    }

    /// The seconds left before the code expires, as shown.
    pub fn countdown_label(&self) -> (s: String)
        ensures
            s@ == countdown_text(self.count_down as nat),
    {
        let mut s = String::new();
        push_decimal(&mut s, self.count_down);
        s.append(" seconds to expiration");
        proof {
            reveal_strlit(" seconds to expiration");
        }
        s
    }
}

/// `<title> (<year>)`.
pub open spec fn failed_import_text(title: Seq<char>, year: nat) -> Seq<char> {
    title + " ("@ + decimal(year) + ")"@
}

/// `<current> / <total>`.
pub open spec fn import_progress_text(current: nat, total: nat) -> Seq<char> {
    decimal(current) + " / "@ + decimal(total)
}

impl ImportPage {
    /// How a show that could not be imported is listed.
    pub fn failed_import_label(show: &TraktShow) -> (s: String)
        ensures
            s@ == failed_import_text(show.title@, show.year as nat),
    {
        let mut s = show.title.clone();
        s.append(" (");
        push_decimal(&mut s, show.year);
        s.append(")");
        proof {
            reveal_strlit(" (");
            reveal_strlit(")");
            assert(s@ =~= failed_import_text(show.title@, show.year as nat));
        }
        s
    }

    /// The progress beside the progress bar.
    pub fn progress_label(&self) -> (s: String)
        ensures
            s@ == import_progress_text(self.progress.1 as nat, self.progress.0 as nat),
    {
        let mut s = String::new();
        push_decimal_usize(&mut s, self.progress.1);
        s.append(" / ");
        push_decimal_usize(&mut s, self.progress.0);
        proof {
            reveal_strlit(" / ");
            assert(s@ =~= import_progress_text(self.progress.1 as nat, self.progress.0 as nat));
        }
        s
    }
}

} // verus!
