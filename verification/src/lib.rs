//! Verified core of the Series Troxide tracker: text formatting of series
//! data, time splitting, navigation between series pages, fuzzy searching of
//! tabs and the state machines behind the settings widgets.

pub mod helpers;
pub mod assets;
pub mod message;
pub mod tabs;
pub mod series_information;
pub mod tab_searching;
pub mod series_page;
pub mod trakt_integration;
pub mod settings_tab;
pub mod my_shows_view;
pub mod episodes;
pub mod season_widget;
pub mod name_order;
pub mod watchlist_tab;
pub mod series_view;
pub mod statistics_tab;
pub mod settings_config;
pub mod upcoming_releases;
pub mod my_shows_tab;
pub mod discover_search;
pub mod gui;
pub mod view;
pub mod discover_view;
pub mod search_view;
pub mod cast_widget;
pub mod series_widget;
pub mod troxide_widget;
pub mod theme;
