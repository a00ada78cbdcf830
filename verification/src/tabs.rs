//! The tabs of the main window and their labels.

use vstd::prelude::*;
use vstd::std_specs::convert::FromSpecImpl;

verus! {

/// The tabs of the main window, in the order they are shown.
#[derive(Debug, Clone, Copy, PartialEq, Eq, Structural)]
pub enum TabId {
    Discover,
    Watchlist,
    MyShows,
    Statistics,
    Settings,
}

/// The number of tabs.
pub open spec fn tab_count() -> nat {
    5
}

/// The position of a tab in the title bar.
pub open spec fn tab_index(tab: TabId) -> usize {
    match tab {
        TabId::Discover => 0,
        TabId::Watchlist => 1,
        TabId::MyShows => 2,
        TabId::Statistics => 3,
        TabId::Settings => 4,
    }
}

/// The tab shown at a position of the title bar.
pub open spec fn tab_at(value: usize) -> TabId
    recommends
        value < tab_count(),
{
    if value == 0 {
        TabId::Discover
    } else if value == 1 {
        TabId::Watchlist
    } else if value == 2 {
        TabId::MyShows
    } else if value == 3 {
        TabId::Statistics
    } else {
        TabId::Settings
    }
}

/// The title of a tab.
pub open spec fn tab_title(tab: TabId) -> Seq<char> {
    match tab {
        TabId::Discover => seq!['D', 'i', 's', 'c', 'o', 'v', 'e', 'r'],
        TabId::Watchlist => seq!['W', 'a', 't', 'c', 'h', 'l', 'i', 's', 't'],
        TabId::MyShows => seq!['M', 'y', ' ', 'S', 'h', 'o', 'w', 's'],
        TabId::Statistics => seq!['S', 't', 'a', 't', 'i', 's', 't', 'i', 'c', 's'],
        TabId::Settings => seq!['S', 'e', 't', 't', 'i', 'n', 'g', 's'],
    }
}

impl TabId {
    /// The tab at position `value` of the title bar.
    pub fn from_index(value: usize) -> (t: Self)
        requires
            value < tab_count(),
        ensures
            t == tab_at(value),
    {
        match value {
            0 => Self::Discover,
            1 => Self::Watchlist,
            2 => Self::MyShows,
            3 => Self::Statistics,
            _ => Self::Settings,
        }
    }

    /// The title of the tab.
    pub fn title(&self) -> (s: &'static str)
        ensures
            s@ == tab_title(*self),
    {
        proof {
            reveal_strlit("Discover");
            reveal_strlit("Watchlist");
            reveal_strlit("My Shows");
            reveal_strlit("Statistics");
            reveal_strlit("Settings");
        }
        match self {
            TabId::Discover => "Discover",
            TabId::Watchlist => "Watchlist",
            TabId::MyShows => "My Shows",
            TabId::Statistics => "Statistics",
            TabId::Settings => "Settings",
        }
    }
}

impl From<TabId> for usize {
    fn from(val: TabId) -> (i: usize) {
        match val {
            TabId::Discover => 0,
            TabId::Watchlist => 1,
            TabId::MyShows => 2,
            TabId::Statistics => 3,
            TabId::Settings => 4,
        }
    }
}

impl FromSpecImpl<TabId> for usize {
    open spec fn obeys_from_spec() -> bool {
        true
    }

    open spec fn from_spec(val: TabId) -> usize {
        tab_index(val)
    }
}

/// Converting a tab to its position and back gives the same tab.
pub proof fn lemma_tab_index_round_trip(tab: TabId)
    ensures
        tab_index(tab) < tab_count(),
        tab_at(tab_index(tab)) == tab,
{
}

/// Converting a position to its tab and back gives the same position.
pub proof fn lemma_tab_at_round_trip(value: usize)
    requires
        value < tab_count(),
    ensures
        tab_index(tab_at(value)) == value,
{
}

/// The text and icon shown for a tab in the title bar.
pub struct TabLabel {
    pub text: &'static str,
    pub icon: &'static [u8],
}

impl TabLabel {
    pub fn new(text: &'static str, icon: &'static [u8]) -> (l: Self)
        ensures
            l.text == text,
            l.icon == icon,
    {
        Self { text, icon }
    }
}

} // verus!
