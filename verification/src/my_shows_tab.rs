//! The "My Shows" tab: the upcoming releases, then the series waiting for a
//! release date, the ended ones and the untracked ones, each list sorted by
//! name and filtered by the search bar of the tab.

use vstd::prelude::*;

use crate::name_order::{keeps_order_of_equals, name_key, sort_by_name, sorted_by_name, Named};
use crate::series_information::SeriesMainInformation;
use crate::tab_searching::{matched_ids, update_matches, Message as SearcherMessage, Searcher};
use crate::upcoming_releases::{
    upcoming_series, upcoming_step, Action as UpcomingAction, Message as UpcomingMessage, UpcomingReleases,
};

verus! {

impl Named for SeriesMainInformation {
    open spec fn name_of(&self) -> Seq<char> {
        self.name@
    }

    fn name(&self) -> (n: &str) {
        self.name.as_str()
    }
}

/// Which series a list of the tab holds.
#[derive(Debug, Clone, Copy, PartialEq, Eq, Structural)]
pub enum MyShowsKind {
    EndedTracked,
    WaitingRelease,
    Untracked,
}

#[derive(Debug)]
pub enum MyShowsMessage {
    /// The series of the list arrived, or could not be loaded.
    SeriesInformationReceived(Option<Vec<SeriesMainInformation>>),
    /// The poster at this position was pressed.
    SeriesPosterPressed(usize),
}

/// What the caller has to do after a list handled a message.
#[derive(Debug)]
pub enum MyShowsAction {
    Nothing,
    /// Load the series of this kind; answer `SeriesInformationReceived`.
    LoadSeries(MyShowsKind),
    /// Open the page of the series with this id.
    OpenSeries(u32),
}

#[derive(Debug, Clone, Copy, PartialEq, Eq, Structural)]
pub enum LoadState {
    Loading,
    Loaded,
}

/// A list of series of the tab.
#[derive(Debug)]
pub struct MyShows {
    pub kind: MyShowsKind,
    pub load_state: LoadState,
    /// The series, sorted by name.
    pub series_posters: Vec<SeriesMainInformation>,
    pub matched_id_collection: Option<Vec<u32>>,
}

/// The series information of the posters, by reference.
pub open spec fn poster_refs<'a>(posters: Seq<SeriesMainInformation>) -> Seq<&'a SeriesMainInformation> {
    posters.map_values(|p: SeriesMainInformation| &p)
}

/// What a list does with `message`: the list after it and the action.
pub open spec fn my_shows_step(list: MyShows, message: MyShowsMessage, after: MyShows, a: MyShowsAction) -> bool {
    match message {
        MyShowsMessage::SeriesInformationReceived(Some(infos)) => {
            &&& a is Nothing
            &&& after.kind == list.kind
            &&& after.load_state == LoadState::Loaded
            &&& sorted_by_name(after.series_posters@)
            &&& after.series_posters@.to_multiset() == infos@.to_multiset()
            &&& keeps_order_of_equals(after.series_posters@, infos@, name_key::<SeriesMainInformation>())
            &&& after.matched_id_collection == list.matched_id_collection
        },
        MyShowsMessage::SeriesInformationReceived(None) => a is Nothing && after == MyShows {
            load_state: LoadState::Loaded,
            ..list
        },
        MyShowsMessage::SeriesPosterPressed(i) => a == MyShowsAction::OpenSeries(list.series_posters@[i as int].id)
            && after == list,
    }
}

impl MyShows {
    fn new(kind: MyShowsKind) -> (r: (Self, MyShowsAction))
        ensures
            r.0.kind == kind,
            r.0.load_state == LoadState::Loading,
            r.0.series_posters@.len() == 0,
            r.0.matched_id_collection is None,
            r.1 == MyShowsAction::LoadSeries(kind),
    {
        (
            Self { kind, load_state: LoadState::Loading, series_posters: Vec::new(), matched_id_collection: None },
            MyShowsAction::LoadSeries(kind),
        )
    }

    /// The list of the tracked series that have ended, to be loaded.
    pub fn new_as_ended_tracked_series() -> (r: (Self, MyShowsAction))
        ensures
            r.0.kind == MyShowsKind::EndedTracked,
            r.0.load_state == LoadState::Loading,
            r.0.series_posters@.len() == 0,
            r.1 == MyShowsAction::LoadSeries(MyShowsKind::EndedTracked),
    {
        Self::new(MyShowsKind::EndedTracked)
    }

    /// The list of the tracked series waiting for a release date, to be
    /// loaded.
    pub fn new_as_waiting_release_series() -> (r: (Self, MyShowsAction))
        ensures
            r.0.kind == MyShowsKind::WaitingRelease,
            r.0.load_state == LoadState::Loading,
            r.0.series_posters@.len() == 0,
            r.1 == MyShowsAction::LoadSeries(MyShowsKind::WaitingRelease),
    {
        Self::new(MyShowsKind::WaitingRelease)
    }

    /// The list of the untracked series, to be loaded.
    pub fn new_as_untracked_series() -> (r: (Self, MyShowsAction))
        ensures
            r.0.kind == MyShowsKind::Untracked,
            r.0.load_state == LoadState::Loading,
            r.0.series_posters@.len() == 0,
            r.1 == MyShowsAction::LoadSeries(MyShowsKind::Untracked),
    {
        Self::new(MyShowsKind::Untracked)
    }

    pub fn update(&mut self, message: MyShowsMessage) -> (a: MyShowsAction)
        requires
            message matches MyShowsMessage::SeriesInformationReceived(infos) ==> infos is Some,
            message matches MyShowsMessage::SeriesPosterPressed(i) ==> i < old(self).series_posters@.len(),
        ensures
            my_shows_step(*old(self), message, *final(self), a),
    {
        match message {
            MyShowsMessage::SeriesInformationReceived(infos) => {
                self.load_state = LoadState::Loaded;
                match infos {
                    Some(infos) => {
                        self.series_posters = sort_by_name(infos);
                    },
                    None => {},
                }
                MyShowsAction::Nothing
            },
            MyShowsMessage::SeriesPosterPressed(index) => MyShowsAction::OpenSeries(self.series_posters[index].id),
        }
    }

    /// Filters the posters by the search term of the tab.
    pub fn update_matches(&mut self, search_term: &str)
        ensures
            final(self).series_posters == old(self).series_posters,
            final(self).load_state == old(self).load_state,
            final(self).kind == old(self).kind,
            search_term@.len() == 0 ==> final(self).matched_id_collection is None,
            search_term@.len() > 0 ==> (final(self).matched_id_collection matches Some(ids) && ids@ == matched_ids(
                search_term@,
                poster_refs(old(self).series_posters@),
            )),
    {
        let mut collection: Vec<&SeriesMainInformation> = Vec::new();
        let mut i: usize = 0;
        while i < self.series_posters.len()
            invariant
                i <= self.series_posters@.len(),
                collection@ == poster_refs(self.series_posters@.take(i as int)),
            decreases self.series_posters@.len() - i,
        {
            collection.push(&self.series_posters[i]);
            proof {
                assert(collection@ =~= poster_refs(self.series_posters@.take(i + 1)));
            }
            i = i + 1;
        }
        proof {
            assert(self.series_posters@.take(i as int) =~= self.series_posters@);
        }
        let mut matches: Option<Vec<u32>> = None;
        update_matches(&mut matches, search_term, collection.as_slice());
        self.matched_id_collection = matches;
    }
}

#[derive(Debug)]
pub enum Message {
    Ended(MyShowsMessage),
    Waiting(MyShowsMessage),
    Upcoming(UpcomingMessage),
    Untracked(MyShowsMessage),
    Searcher(SearcherMessage),
}

/// What the caller has to do after the tab handled a message.
#[derive(Debug)]
pub enum Action {
    Ended(MyShowsAction),
    Waiting(MyShowsAction),
    Upcoming(UpcomingAction),
    Untracked(MyShowsAction),
    Nothing,
}

/// The "My Shows" tab.
#[derive(Debug)]
pub struct MyShowsTab {
    pub waiting_releases: MyShows,
    pub upcoming_releases: UpcomingReleases,
    pub ended_releases: MyShows,
    pub untracked_releases: MyShows,
    pub searcher: Searcher,
}

/// The lists of the tab are those of their kinds.
pub open spec fn lists_well_kinded(tab: MyShowsTab) -> bool {
    &&& tab.waiting_releases.kind == MyShowsKind::WaitingRelease
    &&& tab.ended_releases.kind == MyShowsKind::EndedTracked
    &&& tab.untracked_releases.kind == MyShowsKind::Untracked
}

/// `list` after the search term `term` filtered it: the same series, with
/// the ids of those matching the term, or none for an empty term.
pub open spec fn filtered_list(list: MyShows, term: Seq<char>, after: MyShows) -> bool {
    &&& after.kind == list.kind
    &&& after.load_state == list.load_state
    &&& after.series_posters == list.series_posters
    &&& if term.len() == 0 {
        after.matched_id_collection is None
    } else {
        after.matched_id_collection matches Some(ids) && ids@ == matched_ids(term, poster_refs(list.series_posters@))
    }
}

/// What the tab does with `message`: the tab after it and the action.
pub open spec fn my_shows_tab_step(tab: MyShowsTab, message: Message, after: MyShowsTab, a: Action) -> bool {
    match message {
        Message::Ended(m) => (a matches Action::Ended(x) && my_shows_step(tab.ended_releases, m, after.ended_releases, x))
            && after == MyShowsTab { ended_releases: after.ended_releases, ..tab },
        Message::Waiting(m) => (a matches Action::Waiting(x) && my_shows_step(
            tab.waiting_releases,
            m,
            after.waiting_releases,
            x,
        )) && after == MyShowsTab { waiting_releases: after.waiting_releases, ..tab },
        Message::Untracked(m) => (a matches Action::Untracked(x) && my_shows_step(
            tab.untracked_releases,
            m,
            after.untracked_releases,
            x,
        )) && after == MyShowsTab { untracked_releases: after.untracked_releases, ..tab },
        Message::Upcoming(m) => (a matches Action::Upcoming(x) && upcoming_step(
            tab.upcoming_releases,
            m,
            after.upcoming_releases,
            x,
        )) && after == MyShowsTab { upcoming_releases: after.upcoming_releases, ..tab },
        Message::Searcher(SearcherMessage::SearchTermChanged(term)) => {
            &&& a is Nothing
            &&& after.searcher.term() == term@
            &&& after.searcher.placeholder_text() == tab.searcher.placeholder_text()
            &&& filtered_list(tab.waiting_releases, term@, after.waiting_releases)
            &&& filtered_list(tab.ended_releases, term@, after.ended_releases)
            &&& filtered_list(tab.untracked_releases, term@, after.untracked_releases)
            &&& after.upcoming_releases.upcoming_posters == tab.upcoming_releases.upcoming_posters
            &&& after.upcoming_releases.load_state == tab.upcoming_releases.load_state
            &&& if term@.len() == 0 {
                after.upcoming_releases.matched_id_collection is None
            } else {
                after.upcoming_releases.matched_id_collection matches Some(ids) && ids@ == matched_ids(
                    term@,
                    upcoming_series(tab.upcoming_releases.upcoming_posters@),
                )
            }
        },
    }
}

impl MyShowsTab {
    /// The tab, with the loading its lists need: the untracked, ended,
    /// waiting and upcoming series.
    pub fn new() -> (r: (Self, Vec<Action>))
        ensures
            lists_well_kinded(r.0),
            r.0.searcher.term() == Seq::<char>::empty(),
            r.0.searcher.placeholder_text() == "Search My Shows"@,
            r.1@.len() == 4,
            r.1@[0] == Action::Untracked(MyShowsAction::LoadSeries(MyShowsKind::Untracked)),
            r.1@[1] == Action::Ended(MyShowsAction::LoadSeries(MyShowsKind::EndedTracked)),
            r.1@[2] == Action::Waiting(MyShowsAction::LoadSeries(MyShowsKind::WaitingRelease)),
            r.1@[3] is Upcoming && r.1@[3]->Upcoming_0 is LoadUpcomingReleases,
    {
        proof {
            reveal_strlit("Search My Shows");
        }
        let (untracked_releases, untracked_action) = MyShows::new_as_untracked_series();
        let (ended_releases, ended_action) = MyShows::new_as_ended_tracked_series();
        let (upcoming_releases, upcoming_action) = UpcomingReleases::new();
        let (waiting_releases, waiting_action) = MyShows::new_as_waiting_release_series();
        let mut actions: Vec<Action> = Vec::new();
        actions.push(Action::Untracked(untracked_action));
        actions.push(Action::Ended(ended_action));
        actions.push(Action::Waiting(waiting_action));
        actions.push(Action::Upcoming(upcoming_action));
        (
            Self {
                waiting_releases,
                upcoming_releases,
                ended_releases,
                untracked_releases,
                searcher: Searcher::new(String::from_str("Search My Shows")),
            },
            actions,
        )
    }

    pub fn update(&mut self, message: Message) -> (a: Action)
        requires
            message matches Message::Ended(m) ==> (m matches MyShowsMessage::SeriesInformationReceived(infos) ==> infos is Some)
                && (m matches MyShowsMessage::SeriesPosterPressed(i) ==> i < old(self).ended_releases.series_posters@.len()),
            message matches Message::Waiting(m) ==> (m matches MyShowsMessage::SeriesInformationReceived(infos) ==> infos is Some)
                && (m matches MyShowsMessage::SeriesPosterPressed(i) ==> i < old(self).waiting_releases.series_posters@.len()),
            message matches Message::Untracked(m) ==> (m matches MyShowsMessage::SeriesInformationReceived(infos) ==> infos is Some)
                && (m matches MyShowsMessage::SeriesPosterPressed(i) ==> i < old(self).untracked_releases.series_posters@.len()),
            message matches Message::Upcoming(m) ==> (m matches UpcomingMessage::SeriesInformationReceived(infos) ==> infos is Some)
                && (m matches UpcomingMessage::UpcomingPosterPressed(i) ==> i < old(self).upcoming_releases.upcoming_posters@.len()),
        ensures
            lists_well_kinded(*old(self)) ==> lists_well_kinded(*final(self)),
            my_shows_tab_step(*old(self), message, *final(self), a),
    {
        match message {
            Message::Ended(message) => Action::Ended(self.ended_releases.update(message)),
            Message::Waiting(message) => Action::Waiting(self.waiting_releases.update(message)),
            Message::Upcoming(message) => Action::Upcoming(self.upcoming_releases.update(message)),
            Message::Untracked(message) => Action::Untracked(self.untracked_releases.update(message)),
            Message::Searcher(message) => {
                self.searcher.update(message);
                let term = self.searcher.current_search_term();
                self.waiting_releases.update_matches(term);
                self.upcoming_releases.update_matches(term);
                self.ended_releases.update_matches(term);
                self.untracked_releases.update_matches(term);
                Action::Nothing
            },
        }
    }
}

} // verus!
