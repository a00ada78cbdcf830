//! The tracking data settings: importing and exporting the tracking data of
//! the program, and the Trakt integration.

use vstd::prelude::*;

use crate::helpers::{decimal, push_decimal_usize};
use crate::my_shows_view::vec_copy;
use crate::settings_tab::caching_widget::StatusText;
use crate::trakt_integration::{trakt_step, Action as TraktAction, Client, Message as TraktMessage, TraktIntegration};

verus! {

/// Tracking data read from an export file: the ids of its series.
#[derive(Debug)]
pub struct TransferData {
    pub series_ids: Vec<u32>,
}

/// What the worker that caches the imported series reports.
#[derive(Debug, Clone, Copy, PartialEq, Eq, Structural)]
pub enum FullCachingEvent {
    /// The worker is ready to take work.
    Ready,
    /// Every series was cached.
    WorkFinished,
    /// One more series was cached.
    Progressing,
}

/// The work given to the caching worker.
#[derive(Debug)]
pub enum Input {
    CacheSeries(Vec<u32>),
}

#[derive(Debug)]
pub enum Message {
    ImportDatabasePressed,
    ExportDatabasePressed,
    ImportReceived(Result<Option<TransferData>, String>),
    ExportComplete(Result<(), String>),
    ImportTimeoutComplete,
    ExportTimeoutComplete,
    ImportCachingEvent(FullCachingEvent),
    TraktIntegration(TraktMessage),
}

/// What the caller has to do after the widget handled a message.
#[derive(Debug)]
pub enum Action {
    Nothing,
    /// Let the user pick an export file and read it; answer
    /// `ImportReceived`.
    ImportTransferData,
    /// Let the user pick where to export and write the data there; answer
    /// `ExportComplete`.
    Export,
    /// Give this work to the caching worker.
    SendToCacher(Input),
    /// Import the data into the database, then wait a few seconds and
    /// answer `ImportTimeoutComplete`.
    ImportIntoDatabase(TransferData),
    /// Wait a few seconds and answer `ImportTimeoutComplete`.
    ImportStatusTimeout,
    /// Wait a few seconds and answer `ExportTimeoutComplete`.
    ExportStatusTimeout,
    /// What the Trakt integration asks for.
    Trakt(TraktAction),
}

/// The tracking data widget.
#[derive(Debug)]
pub struct Database {
    pub import_status: Option<Result<(), String>>,
    pub export_status: Option<Result<(), String>>,
    /// `(series cached, series to cache)` of the running import.
    pub import_progress: (usize, usize),
    pub importing: bool,
    pub transfer_data: Option<TransferData>,
    /// Whether the caching worker reported it is ready.
    pub has_sender: bool,
    pub trakt_widget: TraktIntegration,
}

/// `<cached> / <to cache>`.
pub open spec fn progress_text(done: nat, total: nat) -> Seq<char> {
    decimal(done) + " / "@ + decimal(total)
}

/// The status text of an import or an export.
pub open spec fn status_text(status: Option<Result<(), String>>) -> StatusText {
    match status {
        Some(Ok(())) => StatusText::Done,
        Some(Err(e)) => StatusText::Failed(e),
        None => StatusText::Blank,
    }
}

/// What the widget does with `message`: the widget after it and the action;
/// `environment_client` is passed on to the Trakt integration.
pub open spec fn database_step(
    db: Database,
    message: Message,
    environment_client: Result<Client, String>,
    after: Database,
    a: Action,
) -> bool {
    match message {
        Message::ImportDatabasePressed => a is ImportTransferData && after == db,
        Message::ExportDatabasePressed => a is Export && after == db,
        Message::ImportReceived(Ok(Some(data))) => (a matches Action::SendToCacher(Input::CacheSeries(ids)) && ids@
            == data.series_ids@) && after == Database {
            transfer_data: Some(data),
            importing: true,
            import_progress: (db.import_progress.0, data.series_ids@.len() as usize),
            ..db
        },
        Message::ImportReceived(Ok(None)) => a is Nothing && after == db,
        Message::ImportReceived(Err(e)) => a is ImportStatusTimeout && after == Database {
            import_status: Some(Err(e)),
            ..db
        },
        Message::ExportComplete(r) => a is ExportStatusTimeout && after == Database { export_status: Some(r), ..db },
        Message::ImportTimeoutComplete => a is Nothing && after == Database { import_status: None, ..db },
        Message::ExportTimeoutComplete => a is Nothing && after == Database { export_status: None, ..db },
        Message::ImportCachingEvent(FullCachingEvent::Ready) => a is Nothing && after == Database {
            has_sender: true,
            ..db
        },
        Message::ImportCachingEvent(FullCachingEvent::WorkFinished) => (a matches Action::ImportIntoDatabase(data)
            && db.transfer_data matches Some(d) && data.series_ids@ == d.series_ids@) && after == Database {
            import_progress: (0usize, 0usize),
            importing: false,
            import_status: Some(Ok(())),
            ..db
        },
        Message::ImportCachingEvent(FullCachingEvent::Progressing) => a is Nothing && after == Database {
            import_progress: ((db.import_progress.0 + 1) as usize, db.import_progress.1),
            ..db
        },
        Message::TraktIntegration(m) => (a matches Action::Trakt(x) && trakt_step(
            db.trakt_widget,
            m,
            environment_client,
            after.trakt_widget,
            x,
        )) && after == Database { trakt_widget: after.trakt_widget, ..db },
    }
}

impl Database {
    pub fn new() -> (d: Self)
        ensures
            d.import_status is None,
            d.export_status is None,
            d.import_progress == (0usize, 0usize),
            !d.importing,
            d.transfer_data is None,
            !d.has_sender,
            d.trakt_widget.setup_page is None,
            !d.trakt_widget.sync_trakt_account,
    {
        Self {
            import_status: None,
            export_status: None,
            import_progress: (0, 0),
            importing: false,
            transfer_data: None,
            has_sender: false,
            trakt_widget: TraktIntegration::new(),
        }
    }

    /// Handles a message; `environment_client` is passed on to the Trakt
    /// integration.
    pub fn update(
        &mut self,
        message: Message,
        environment_client: Result<Client, String>,
    ) -> (a: Action)
        requires
            message matches Message::ImportReceived(Ok(Some(_))) ==> old(self).has_sender,
            message == Message::ImportCachingEvent(FullCachingEvent::WorkFinished) ==> old(self).transfer_data is Some,
            message == Message::ImportCachingEvent(FullCachingEvent::Progressing) ==> old(self).import_progress.0
                < usize::MAX,
            message matches Message::TraktIntegration(m) ==> old(self).trakt_widget.accepts(m),
        ensures
            database_step(*old(self), message, environment_client, *final(self), a),
    {
        match message {
            Message::ImportDatabasePressed => Action::ImportTransferData,
            Message::ExportDatabasePressed => Action::Export,
            Message::ImportReceived(import_result) => match import_result {
                Ok(transfer_data) => match transfer_data {
                    Some(transfer_data) => {
                        let ids = vec_copy(&transfer_data.series_ids);
                        self.import_progress.1 = ids.len();
                        self.transfer_data = Some(transfer_data);
                        self.importing = true;
                        Action::SendToCacher(Input::CacheSeries(ids))
                    },
                    None => Action::Nothing,
                },
                Err(err) => {
                    self.import_status = Some(Err(err));
                    Action::ImportStatusTimeout
                },
            },
            Message::ExportComplete(export_result) => {
                self.export_status = Some(export_result);
                Action::ExportStatusTimeout
            },
            Message::ImportTimeoutComplete => {
                self.import_status = None;
                Action::Nothing
            },
            Message::ExportTimeoutComplete => {
                self.export_status = None;
                Action::Nothing
            },
            Message::ImportCachingEvent(event) => match event {
                FullCachingEvent::Ready => {
                    self.has_sender = true;
                    Action::Nothing
                },
                FullCachingEvent::WorkFinished => {
                    self.import_progress = (0, 0);
                    self.importing = false;
                    let data = match &self.transfer_data {
                        Some(d) => TransferData { series_ids: vec_copy(&d.series_ids) },
                        None => TransferData { series_ids: Vec::new() },
                    };
                    self.import_status = Some(Ok(()));
                    Action::ImportIntoDatabase(data)
                },
                FullCachingEvent::Progressing => {
                    self.import_progress.0 = self.import_progress.0 + 1;
                    Action::Nothing
                },
            },
            Message::TraktIntegration(message) => Action::Trakt(self.trakt_widget.update(message, environment_client)),
        }
    }

    /// Whether the import button can be pressed: not while importing.
    pub fn import_enabled(&self) -> (b: bool)
        ensures
            b == !self.importing,
    {
        !self.importing
    }

    /// The progress of the import, shown while importing.
    pub fn import_progress_text(&self) -> (s: Option<String>)
        ensures
            self.importing ==> (s matches Some(t) && t@ == progress_text(
                self.import_progress.0 as nat,
                self.import_progress.1 as nat,
            )),
            !self.importing ==> s is None,
    {
        if !self.importing {
            return None;
        }
        let mut s = String::new();
        push_decimal_usize(&mut s, self.import_progress.0);
        s.append(" / ");
        push_decimal_usize(&mut s, self.import_progress.1);
        proof {
            reveal_strlit(" / ");
            assert(s@ =~= progress_text(self.import_progress.0 as nat, self.import_progress.1 as nat));
        }
        Some(s)
    }
}

/// The status text beside the import or the export button.
pub fn get_status_text(status: &Option<Result<(), String>>) -> (t: StatusText)
    ensures
        t == status_text(*status),
{
    match status {
        Some(Ok(())) => StatusText::Done,
        Some(Err(e)) => StatusText::Failed(e.clone()),
        None => StatusText::Blank,
    }
}

} // verus!
