//! The "About" widget: program information, the check for a newer release
//! and the links to the sites the program builds on.

use vstd::prelude::*;

verus! {

/// What is known of the program's package on the crate registry.
#[derive(Debug, Clone)]
pub struct PackageInformation {
    /// The newest version published.
    pub newest_version: String,
    /// Whether the running program is that newest version.
    pub up_to_date: bool,
}

/// The answer of the crate registry about the program.
#[derive(Debug, Clone)]
pub struct CrateInformation {
    pub package: PackageInformation,
}

#[derive(Debug)]
pub enum Message {
    Repository,
    TvMaze,
    BootstrapIcons,
    Iced,
    CrateInfoLoaded(Result<CrateInformation, String>),
    RecheckUpdate,
    Coffee,
    NotificationSent,
}

/// A site the widget links to.
#[derive(Debug, Clone, Copy, PartialEq, Eq, Structural)]
pub enum Site {
    Repository,
    TvMaze,
    BootstrapIcons,
    Iced,
    Patreon,
}

/// What the caller has to do after a message was handled.
#[derive(Debug)]
pub enum Action {
    Nothing,
    /// Open the site in the browser.
    OpenSite(Site),
    /// Ask the crate registry about the program; answer `CrateInfoLoaded`.
    CheckUpdate,
    /// Show a desktop notification with this summary and body; answer
    /// `NotificationSent`.
    Notify(String, String),
}

pub struct About {
    pub crate_information: Option<Result<CrateInformation, String>>,
}

/// The style of the box that holds the version information.
#[derive(Debug, Clone, Copy, PartialEq, Eq, Structural)]
pub enum VersionBoxStyle {
    Success,
    Failure,
    Loading,
}

/// What the version box shows: the latest version (or why it is not
/// known), its style, and whether the program is up to date when that is
/// known.
#[derive(Debug)]
pub struct VersionStatus {
    pub latest_version: String,
    pub style: VersionBoxStyle,
    pub up_to_date: Option<bool>,
}

pub open spec fn notification_summary() -> Seq<char> {
    "Series Troxide Update"@
}

/// `Version <newest> of Series Troxide is available`.
pub open spec fn notification_body(newest_version: Seq<char>) -> Seq<char> {
    "Version "@ + newest_version + " of Series Troxide is available"@
}

/// The update status shown while the answer is awaited (`None`), after an
/// error, and after an answer.
pub open spec fn version_status(crate_information: Option<Result<CrateInformation, String>>) -> (Seq<char>, VersionBoxStyle, Option<bool>) {
    match crate_information {
        Some(Ok(info)) => (
            info.package.newest_version@,
            if info.package.up_to_date { VersionBoxStyle::Success } else { VersionBoxStyle::Failure },
            Some(info.package.up_to_date),
        ),
        Some(Err(_)) => ("unavailable"@, VersionBoxStyle::Failure, None),
        None => ("loading..."@, VersionBoxStyle::Loading, None),
    }
}

/// The text above the versions: only shown once the status is known.
pub open spec fn up_to_date_text(up_to_date: Option<bool>) -> Option<Seq<char>> {
    match up_to_date {
        Some(true) => Some("Up to date"@),
        Some(false) => Some("Out of date"@),
        None => None,
    }
}

/// What the widget does with `message`: the widget after it and the
/// action; `notify_when_outdated` is the user's setting.
pub open spec fn about_step(about: About, message: Message, notify_when_outdated: bool, after: About, a: Action) -> bool {
    match message {
        Message::Repository => a == Action::OpenSite(Site::Repository) && after == about,
        Message::TvMaze => a == Action::OpenSite(Site::TvMaze) && after == about,
        Message::BootstrapIcons => a == Action::OpenSite(Site::BootstrapIcons) && after == about,
        Message::Iced => a == Action::OpenSite(Site::Iced) && after == about,
        Message::Coffee => a == Action::OpenSite(Site::Patreon) && after == about,
        Message::NotificationSent => a is Nothing && after == about,
        Message::RecheckUpdate => a is CheckUpdate && after.crate_information is None,
        Message::CrateInfoLoaded(info) => after.crate_information == Some(info) && match info {
            Ok(i) => if !i.package.up_to_date && notify_when_outdated {
                a matches Action::Notify(summary, body) && summary@ == notification_summary() && body@
                    == notification_body(i.package.newest_version@)
            } else {
                a is Nothing
            },
            Err(_) => a is Nothing,
        },
    }
}

impl About {
    /// The widget, and the check for a newer release to start.
    pub fn new() -> (r: (Self, Action))
        ensures
            r.0.crate_information is None,
            r.1 is CheckUpdate,
    {
        (Self { crate_information: None }, Action::CheckUpdate)
    }

    /// Handles a message; `notify_when_outdated` is the user's setting read
    /// at this moment.
    pub fn update(&mut self, message: Message, notify_when_outdated: bool) -> (a: Action)
        ensures
            about_step(*old(self), message, notify_when_outdated, *final(self), a),
    {
        match message {
            Message::Repository => Action::OpenSite(Site::Repository),
            Message::TvMaze => Action::OpenSite(Site::TvMaze),
            Message::BootstrapIcons => Action::OpenSite(Site::BootstrapIcons),
            Message::Iced => Action::OpenSite(Site::Iced),
            Message::Coffee => Action::OpenSite(Site::Patreon),
            Message::NotificationSent => Action::Nothing,
            Message::RecheckUpdate => {
                self.crate_information = None;
                Action::CheckUpdate
            },
            Message::CrateInfoLoaded(info_result) => {
                let action = match &info_result {
                    Ok(info) => {
                        if !info.package.up_to_date && notify_when_outdated {
                            let summary = String::from_str("Series Troxide Update");
                            let mut body = String::from_str("Version ");
                            body.append(info.package.newest_version.as_str());
                            body.append(" of Series Troxide is available");
                            proof {
                                reveal_strlit("Series Troxide Update");
                                reveal_strlit("Version ");
                                reveal_strlit(" of Series Troxide is available");
                            }
                            Action::Notify(summary, body)
                        } else {
                            Action::Nothing
                        }
                    },
                    Err(_) => Action::Nothing,
                };
                self.crate_information = Some(info_result);
                action
            },
        }
    }

    /// What the version box of the widget shows.
    pub fn version_status(&self) -> (s: VersionStatus)
        ensures
            (s.latest_version@, s.style, s.up_to_date) == version_status(self.crate_information),
    {
        proof {
            reveal_strlit("unavailable");
            reveal_strlit("loading...");
        }
        match &self.crate_information {
            Some(Ok(info)) => {
                let style = if info.package.up_to_date {
                    VersionBoxStyle::Success
                } else {
                    VersionBoxStyle::Failure
                };
                VersionStatus {
                    latest_version: info.package.newest_version.clone(),
                    style,
                    up_to_date: Some(info.package.up_to_date),
                }
            },
            Some(Err(_)) => VersionStatus {
                latest_version: String::from_str("unavailable"),
                style: VersionBoxStyle::Failure,
                up_to_date: None,
            },
            None => VersionStatus {
                latest_version: String::from_str("loading..."),
                style: VersionBoxStyle::Loading,
                up_to_date: None,
            },
        }
    }
}

/// The text above the versions in the version box.
pub fn update_status_text(up_to_date: Option<bool>) -> (s: Option<&'static str>)
    ensures
        match s {
            Some(t) => up_to_date_text(up_to_date) == Some(t@),
            None => up_to_date_text(up_to_date) is None,
        },
{
    proof {
        reveal_strlit("Up to date");
        reveal_strlit("Out of date");
    }
    match up_to_date {
        Some(true) => Some("Up to date"),
        Some(false) => Some("Out of date"),
        None => None,
    }
}

} // verus!
