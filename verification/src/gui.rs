//! The program's top level: the title bar, the tabs and the stack of series
//! pages, and the title of the window.

use vstd::prelude::*;

use crate::my_shows_tab::{
    my_shows_tab_step, Action as MyShowsAction, Message as MyShowsMessage, MyShowsAction as ListAction, MyShowsKind,
    MyShowsTab,
};
use crate::series_information::SeriesMainInformation;
use crate::series_page::{has_key, pages_after_previous, pages_after_switch, PageSwitch, SeriesPageController};
use crate::statistics_tab::{statistics_step, Action as StatisticsAction, Message as StatisticsMessage, StatisticsTab};
use crate::tabs::{tab_at, tab_count, tab_title, TabId, TabLabel};
use crate::watchlist_tab::{watchlist_step, Message as WatchlistMessage, WatchlistTab};

verus! {

#[derive(Debug, Clone, Copy, PartialEq, Eq, Structural)]
pub enum TitleBarMessage {
    /// The tab at this position of the title bar was pressed.
    TabSelected(usize),
    BackButtonPressed,
}

/// The title bar: the tabs, the active one highlighted, and the back button
/// while a series page is open.
#[derive(Debug, Clone, Copy, PartialEq, Eq, Structural)]
pub struct TitleBar {
    pub active_tab: usize,
}

impl TitleBar {
    pub fn new() -> (t: Self)
        ensures
            t.active_tab == 0,
    {
        Self { active_tab: 0 }
    }

    pub fn update(&mut self, message: TitleBarMessage)
        ensures
            message matches TitleBarMessage::TabSelected(i) ==> final(self).active_tab == i,
            message is BackButtonPressed ==> *final(self) == *old(self),
    {
        match message {
            TitleBarMessage::TabSelected(new_active_tab) => self.active_tab = new_active_tab,
            TitleBarMessage::BackButtonPressed => {},
        }
    }

    /// Whether the tab at `index` is highlighted.
    pub fn is_highlighted(&self, index: usize) -> (b: bool)
        ensures
            b == (index == self.active_tab),
    {
        index == self.active_tab
    }
}

/// An entry of the side menu.
#[derive(Debug, Clone, Copy, PartialEq, Eq, Structural)]
pub enum MenuItem {
    Discover,
    Watchlist,
    MyShows,
    Statistics,
    Settings,
}

/// The side menu: the entry selected.
#[derive(Debug, Clone, Copy, PartialEq, Eq, Structural)]
pub struct Menu {
    pub menu_item_selected: MenuItem,
}

impl Default for Menu {
    fn default() -> (m: Self)
        ensures
            m.menu_item_selected == MenuItem::Discover,
    {
        Menu { menu_item_selected: MenuItem::Discover }
    }
}

impl Menu {
    /// Selects the entry pressed.
    pub fn update(&mut self, message: MenuItem)
        ensures
            final(self).menu_item_selected == message,
    {
        self.menu_item_selected = message;
    }

    /// The label of an entry of the menu.
    pub fn label(item: MenuItem) -> (s: &'static str)
        ensures
            s@ == match item {
                MenuItem::Discover => " Discover"@,
                MenuItem::Watchlist => " Watchlist"@,
                MenuItem::MyShows => " My Shows"@,
                MenuItem::Statistics => " Statistics"@,
                MenuItem::Settings => " Settings"@,
            },
    {
        proof {
            reveal_strlit(" Discover");
            reveal_strlit(" Watchlist");
            reveal_strlit(" My Shows");
            reveal_strlit(" Statistics");
            reveal_strlit(" Settings");
        }
        match item {
            MenuItem::Discover => " Discover",
            MenuItem::Watchlist => " Watchlist",
            MenuItem::MyShows => " My Shows",
            MenuItem::Statistics => " Statistics",
            MenuItem::Settings => " Settings",
        }
    }
}

/// A tab that is built anew each time it is opened.
#[derive(Debug)]
pub enum ReloadableTab {
    Watchlist(WatchlistTab),
    MyShows(MyShowsTab),
    Statistics(StatisticsTab),
}

#[derive(Debug)]
pub enum TabsMessage {
    Watchlist(WatchlistMessage),
    MyShows(MyShowsMessage),
    Statistics(StatisticsMessage),
}

/// What the caller has to do for the tabs.
#[derive(Debug)]
pub enum TabsAction {
    Nothing,
    /// Refresh the discover tab.
    RefreshDiscover,
    /// Load the series with episodes left to watch for the new watchlist;
    /// answer with `WatchlistMessage::SeriesInformationLoaded`.
    LoadWatchlist,
    /// The loading the new "My Shows" tab needs.
    LoadMyShows(Vec<MyShowsAction>),
    /// Load the watched series with their watch times for the new statistics
    /// tab; answer with `StatisticsMessage::SeriesInfosAndTimeReceived`.
    LoadStatistics,
    MyShows(MyShowsAction),
    Statistics(StatisticsAction),
}

/// The tabs: the one shown and the reloadable tab last opened.
#[derive(Debug)]
pub struct TabsController {
    pub current_tab: TabId,
    pub reloadable_tab: Option<ReloadableTab>,
}

/// The reloadable tab that goes with a tab, if any.
pub open spec fn reloadable_kind_matches(tab: TabId, reloadable: Option<ReloadableTab>) -> bool {
    match tab {
        TabId::Watchlist => reloadable matches Some(ReloadableTab::Watchlist(_)),
        TabId::MyShows => reloadable matches Some(ReloadableTab::MyShows(_)),
        TabId::Statistics => reloadable matches Some(ReloadableTab::Statistics(_)),
        _ => true,
    }
}

impl TabsController {
    pub fn new() -> (t: Self)
        ensures
            t.current_tab == TabId::Discover,
            t.reloadable_tab is None,
    {
        Self { current_tab: TabId::Discover, reloadable_tab: None }
    }

    /// The labels of the tabs in title-bar order, the one at each position
    /// with the icon at that position of `icons`.
    pub fn get_labels(&self, icons: [&'static [u8]; 5]) -> (labels: [TabLabel; 5])
        ensures
            forall|i: int|
                0 <= i < tab_count() ==> (#[trigger] labels@[i]).text@ == tab_title(tab_at(i as usize))
                    && labels@[i].icon == icons@[i],
    {
        let labels = [
            TabLabel::new(TabId::Discover.title(), icons[0]),
            TabLabel::new(TabId::Watchlist.title(), icons[1]),
            TabLabel::new(TabId::MyShows.title(), icons[2]),
            TabLabel::new(TabId::Statistics.title(), icons[3]),
            TabLabel::new(TabId::Settings.title(), icons[4]),
        ];
        proof {
            assert forall|i: int| 0 <= i < tab_count() implies (#[trigger] labels@[i]).text@ == tab_title(
                tab_at(i as usize),
            ) && labels@[i].icon == icons@[i] by {
                if i == 0 {
                } else if i == 1 {
                } else if i == 2 {
                } else if i == 3 {
                } else {
                }
            }
        }
        labels
    }

    /// Shows `tab`; a watchlist, "My Shows" or statistics tab is built anew.
    pub fn switch_to_tab(&mut self, tab: TabId) -> (a: TabsAction)
        ensures
            reloadable_kind_matches(tab, final(self).reloadable_tab),
            switch_step(*old(self), tab, *final(self), a),
    {
        self.current_tab = tab;
        match tab {
            TabId::Discover => TabsAction::RefreshDiscover,
            TabId::Watchlist => {
                self.reloadable_tab = Some(ReloadableTab::Watchlist(WatchlistTab::new()));
                TabsAction::LoadWatchlist
            },
            TabId::MyShows => {
                let (my_shows, actions) = MyShowsTab::new();
                self.reloadable_tab = Some(ReloadableTab::MyShows(my_shows));
                TabsAction::LoadMyShows(actions)
            },
            TabId::Statistics => {
                self.reloadable_tab = Some(ReloadableTab::Statistics(StatisticsTab::new()));
                TabsAction::LoadStatistics
            },
            TabId::Settings => TabsAction::Nothing,
        }
    }

    /// Passes a message to the reloadable tab it is for; a message for a tab
    /// that is not open is dropped.
    pub fn update(&mut self, message: TabsMessage) -> (a: TabsAction)
        requires
            message matches TabsMessage::Watchlist(m) ==> (old(self).reloadable_tab matches Some(
                ReloadableTab::Watchlist(w),
            ) ==> (m matches WatchlistMessage::SeriesInformationLoaded(entries)
                ==> crate::watchlist_tab::total_of(entries@) <= usize::MAX) && (m matches WatchlistMessage::ToggleEpisodeInfo(
                i,
            ) ==> i < w.watchlist_posters@.len())),
            message matches TabsMessage::Statistics(m) ==> (old(self).reloadable_tab matches Some(
                ReloadableTab::Statistics(s),
            ) ==> (m matches StatisticsMessage::SeriesBannerSelected(i) ==> i < s.series_banners@.len())),
            message matches TabsMessage::MyShows(m) ==> (old(self).reloadable_tab matches Some(ReloadableTab::MyShows(t))
                ==> my_shows_accepts(t, m)),
        ensures
            final(self).current_tab == old(self).current_tab,
            reloadable_kind_matches(old(self).current_tab, old(self).reloadable_tab) ==> reloadable_kind_matches(
                final(self).current_tab,
                final(self).reloadable_tab,
            ),
            tabs_step(*old(self), message, *final(self), a),
    {
        let mut reloadable: Option<ReloadableTab> = None;
        std::mem::swap(&mut reloadable, &mut self.reloadable_tab);
        let action = match message {
            TabsMessage::Watchlist(message) => match &mut reloadable {
                Some(ReloadableTab::Watchlist(watchlist)) => {
                    watchlist.update(message);
                    TabsAction::Nothing
                },
                _ => TabsAction::Nothing,
            },
            TabsMessage::MyShows(message) => match &mut reloadable {
                Some(ReloadableTab::MyShows(my_shows)) => TabsAction::MyShows(my_shows.update(message)),
                _ => TabsAction::Nothing,
            },
            TabsMessage::Statistics(message) => match &mut reloadable {
                Some(ReloadableTab::Statistics(statistics)) => TabsAction::Statistics(statistics.update(message)),
                _ => TabsAction::Nothing,
            },
        };
        self.reloadable_tab = reloadable;
        action
    }
}

/// What switching to `tab` does: the tab is shown, and a watchlist, "My
/// Shows" or statistics tab is built anew, with what it needs loaded.
pub open spec fn switch_step(tabs: TabsController, tab: TabId, after: TabsController, a: TabsAction) -> bool {
    &&& after.current_tab == tab
    &&& match tab {
        TabId::Discover => a is RefreshDiscover && after.reloadable_tab == tabs.reloadable_tab,
        TabId::Settings => a is Nothing && after.reloadable_tab == tabs.reloadable_tab,
        TabId::Watchlist => a is LoadWatchlist && (after.reloadable_tab matches Some(ReloadableTab::Watchlist(w))
            && w.load_state == crate::watchlist_tab::LoadState::Loading && w.watchlist_posters@.len() == 0
            && w.watchlist_summary is None && w.matched_id_collection is None && w.searcher.term().len() == 0),
        TabId::MyShows => (a matches TabsAction::LoadMyShows(actions) && actions@.len() == 4 && actions@[0]
            == MyShowsAction::Untracked(ListAction::LoadSeries(MyShowsKind::Untracked)) && actions@[1]
            == MyShowsAction::Ended(ListAction::LoadSeries(MyShowsKind::EndedTracked)) && actions@[2]
            == MyShowsAction::Waiting(ListAction::LoadSeries(MyShowsKind::WaitingRelease)) && (actions@[3] matches MyShowsAction::Upcoming(
            u,
        ) && u is LoadUpcomingReleases)) && (after.reloadable_tab matches Some(ReloadableTab::MyShows(t)) && crate::my_shows_tab::lists_well_kinded(t)
            && t.searcher.term().len() == 0),
        TabId::Statistics => a is LoadStatistics && (after.reloadable_tab matches Some(ReloadableTab::Statistics(s))
            && s.series_banners@.len() == 0 && s.series_infos_and_time@.len() == 0 && s.matched_id_collection is None
            && s.searcher.term().len() == 0),
    }
}

/// What the tabs do with `message`: the reloadable tab it is for handles
/// it, and a message for a tab that is not open is dropped.
pub open spec fn tabs_step(tabs: TabsController, message: TabsMessage, after: TabsController, a: TabsAction) -> bool {
    &&& after.current_tab == tabs.current_tab
    &&& match (message, tabs.reloadable_tab) {
        (TabsMessage::Watchlist(m), Some(ReloadableTab::Watchlist(w))) => a is Nothing && (
        after.reloadable_tab matches Some(ReloadableTab::Watchlist(w2)) && watchlist_step(w, m, w2)),
        (TabsMessage::MyShows(m), Some(ReloadableTab::MyShows(t))) => (a matches TabsAction::MyShows(x) && (
        after.reloadable_tab matches Some(ReloadableTab::MyShows(t2)) && my_shows_tab_step(t, m, t2, x))),
        (TabsMessage::Statistics(m), Some(ReloadableTab::Statistics(t))) => (a matches TabsAction::Statistics(x) && (
        after.reloadable_tab matches Some(ReloadableTab::Statistics(t2)) && statistics_step(t, m, t2, x))),
        _ => a is Nothing && after.reloadable_tab == tabs.reloadable_tab,
    }
}

/// Whether the "My Shows" tab can handle `message` (see `MyShowsTab::update`).
pub open spec fn my_shows_accepts(tab: MyShowsTab, message: MyShowsMessage) -> bool {
    match message {
        MyShowsMessage::Ended(m) => (m matches crate::my_shows_tab::MyShowsMessage::SeriesInformationReceived(infos)
            ==> infos is Some) && (m matches crate::my_shows_tab::MyShowsMessage::SeriesPosterPressed(i) ==> i
            < tab.ended_releases.series_posters@.len()),
        MyShowsMessage::Waiting(m) => (m matches crate::my_shows_tab::MyShowsMessage::SeriesInformationReceived(infos)
            ==> infos is Some) && (m matches crate::my_shows_tab::MyShowsMessage::SeriesPosterPressed(i) ==> i
            < tab.waiting_releases.series_posters@.len()),
        MyShowsMessage::Untracked(m) => (m matches crate::my_shows_tab::MyShowsMessage::SeriesInformationReceived(
            infos,
        ) ==> infos is Some) && (m matches crate::my_shows_tab::MyShowsMessage::SeriesPosterPressed(i) ==> i
            < tab.untracked_releases.series_posters@.len()),
        MyShowsMessage::Upcoming(m) => (m matches crate::upcoming_releases::Message::SeriesInformationReceived(infos)
            ==> infos is Some) && (m matches crate::upcoming_releases::Message::UpcomingPosterPressed(i) ==> i
            < tab.upcoming_releases.upcoming_posters@.len()),
        MyShowsMessage::Searcher(_) => true,
    }
}

#[derive(Debug)]
pub enum Message {
    TitleBar(TitleBarMessage),
    /// A page asked to open the page of this series.
    SeriesPageRequested(SeriesMainInformation),
    TabsController(TabsMessage),
}

/// What the caller has to do after the program handled a message.
#[derive(Debug)]
pub enum Action {
    Nothing,
    Tabs(TabsAction),
    /// A series page was opened or brought to the front.
    SeriesPage(PageSwitch),
    /// The page of this series is shown again: restore its scroller.
    RestoreSeriesPageScroller(u32),
    /// No series page is left: restore the scrollers of the tabs.
    RestoreTabScrollers,
}

/// The program's state.
pub struct TroxideGui {
    pub active_tab: TabId,
    pub title_bar: TitleBar,
    pub tabs_controller: TabsController,
    pub series_page_controller: SeriesPageController,
}

/// `Series Troxide - <name of the series page shown, or title of the tab>`.
pub open spec fn window_title(page_name: Option<Seq<char>>, tab: TabId) -> Seq<char> {
    "Series Troxide - "@ + match page_name {
        Some(name) => name,
        None => tab_title(tab),
    }
}

impl TroxideGui {
    pub fn new() -> (g: Self)
        ensures
            g.active_tab == TabId::Discover,
            g.title_bar.active_tab == 0,
            g.tabs_controller.current_tab == TabId::Discover,
            g.tabs_controller.reloadable_tab is None,
            g.series_page_controller.pages().len() == 0,
    {
        Self {
            active_tab: TabId::Discover,
            title_bar: TitleBar::new(),
            tabs_controller: TabsController::new(),
            series_page_controller: SeriesPageController::new(),
        }
    }

    /// The title of the window.
    pub fn title(&self) -> (s: String)
        ensures
            s@ == window_title(
                if self.series_page_controller.pages().len() > 0 {
                    Some(self.series_page_controller.pages().last().1.name@)
                } else {
                    None
                },
                self.active_tab,
            ),
    {
        let mut program_title = String::from_str("Series Troxide - ");
        proof {
            reveal_strlit("Series Troxide - ");
        }
        match self.series_page_controller.get_series_page_name() {
            Some(name) => program_title.append(name),
            None => program_title.append(self.active_tab.title()),
        }
        program_title
    }

    pub fn update(&mut self, message: Message) -> (a: Action)
        requires
            message matches Message::TitleBar(TitleBarMessage::TabSelected(i)) ==> i < tab_count(),
            message matches Message::TabsController(m) ==> tabs_accept(old(self).tabs_controller, m),
        ensures
            message matches Message::TitleBar(TitleBarMessage::TabSelected(i)) ==> final(self).active_tab == tab_at(i)
                && final(self).title_bar.active_tab == i && final(self).series_page_controller.pages().len() == 0
                && (a matches Action::Tabs(x) && switch_step(
                old(self).tabs_controller,
                tab_at(i),
                final(self).tabs_controller,
                x,
            )),
            message is TitleBar && message->TitleBar_0 is BackButtonPressed ==> final(self).series_page_controller.pages()
                == pages_after_previous(old(self).series_page_controller.pages()) && final(self).active_tab
                == old(self).active_tab && final(self).tabs_controller == old(self).tabs_controller
                && final(self).title_bar == old(self).title_bar && (if final(self).series_page_controller.pages().len() > 0 {
                a == Action::RestoreSeriesPageScroller(final(self).series_page_controller.pages().last().0)
            } else {
                a is RestoreTabScrollers
            }),
            message matches Message::SeriesPageRequested(info) ==> final(self).series_page_controller.pages()
                == pages_after_switch(old(self).series_page_controller.pages(), info) && final(self).active_tab
                == old(self).active_tab && final(self).tabs_controller == old(self).tabs_controller
                && final(self).title_bar == old(self).title_bar && (if has_key(old(self).series_page_controller.pages(), info.id) {
                a == Action::SeriesPage(PageSwitch::Existing(info.id))
            } else {
                a == Action::SeriesPage(PageSwitch::Created(info.id))
            }),
            message matches Message::TabsController(m) ==> (a matches Action::Tabs(x) && tabs_step(
                old(self).tabs_controller,
                m,
                final(self).tabs_controller,
                x,
            )) && final(self).active_tab == old(self).active_tab && final(self).title_bar == old(self).title_bar
                && final(self).series_page_controller.pages() == old(self).series_page_controller.pages(),
    {
        match message {
            Message::TabsController(message) => Action::Tabs(self.tabs_controller.update(message)),
            Message::SeriesPageRequested(info) => {
                Action::SeriesPage(self.series_page_controller.try_series_page_switch(info))
            },
            Message::TitleBar(message) => {
                self.title_bar.update(message);
                match message {
                    TitleBarMessage::TabSelected(index) => {
                        self.series_page_controller.clear_all_pages();
                        let tab_id = TabId::from_index(index);
                        self.active_tab = tab_id;
                        Action::Tabs(self.tabs_controller.switch_to_tab(tab_id))
                    },
                    TitleBarMessage::BackButtonPressed => {
                        match self.series_page_controller.go_previous() {
                            Some(id) => Action::RestoreSeriesPageScroller(id),
                            None => Action::RestoreTabScrollers,
                        }
                    },
                }
            },
        }
    }

    /// Whether the title bar shows the back button: a series page is open.
    pub fn shows_back_button(&self) -> (b: bool)
        ensures
            b == (self.series_page_controller.pages().len() > 0),
    {
        self.series_page_controller.has_a_series_page()
    }
}

/// Whether the tabs can handle `message` (see `TabsController::update`).
pub open spec fn tabs_accept(tabs: TabsController, message: TabsMessage) -> bool {
    match message {
        TabsMessage::Watchlist(m) => tabs.reloadable_tab matches Some(ReloadableTab::Watchlist(w)) ==> (
        m matches WatchlistMessage::SeriesInformationLoaded(entries) ==> crate::watchlist_tab::total_of(entries@)
            <= usize::MAX) && (m matches WatchlistMessage::ToggleEpisodeInfo(i) ==> i < w.watchlist_posters@.len()),
        TabsMessage::Statistics(m) => tabs.reloadable_tab matches Some(ReloadableTab::Statistics(s)) ==> (
        m matches StatisticsMessage::SeriesBannerSelected(i) ==> i < s.series_banners@.len()),
        TabsMessage::MyShows(m) => tabs.reloadable_tab matches Some(ReloadableTab::MyShows(t)) ==> my_shows_accepts(
            t,
            m,
        ),
    }
}

} // verus!
