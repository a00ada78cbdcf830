//! The discover settings: the country whose locally aired series the
//! discover page shows, and the posters hidden from it.

use vstd::prelude::*;

use crate::settings_config::{
    country_names, first_named, get_country_code_from_country_name, list_ends_at, names_before,
    no_country_named, LocaleSettings,
};

verus! {

#[derive(Debug)]
pub enum HiddenSeriesMessage {
    UnhideSeries(u32),
    SeriesUnhidden,
}

/// The list of the posters hidden from the discover page.
#[derive(Debug, Clone, Copy, PartialEq, Eq, Structural)]
pub struct HiddenSeries;

/// What the caller has to do after the widget handled a message.
#[derive(Debug, Clone, Copy, PartialEq, Eq, Structural)]
pub enum Action {
    Nothing,
    /// Show the series with this id on the discover page again; answer
    /// `SeriesUnhidden`.
    UnhideSeries(u32),
}

/// A hidden series: its id, its name and its premiere date.
#[derive(Debug)]
pub struct HiddenEntry {
    pub series_id: u32,
    pub series_name: String,
    pub premier_date: Option<String>,
}

/// `(<premiere date>)`.
pub open spec fn premier_date_text(date: Seq<char>) -> Seq<char> {
    "("@ + date + ")"@
}

impl HiddenSeries {
    pub fn update(&mut self, message: HiddenSeriesMessage) -> (a: Action)
        ensures
            message matches HiddenSeriesMessage::UnhideSeries(id) ==> a == Action::UnhideSeries(id),
            message is SeriesUnhidden ==> a is Nothing,
    {
        match message {
            HiddenSeriesMessage::UnhideSeries(series_id) => Action::UnhideSeries(series_id),
            HiddenSeriesMessage::SeriesUnhidden => Action::Nothing,
        }
    }

    /// Whether the list shows "No hidden posters": nothing is hidden, or the
    /// hidden series are not known.
    pub fn shows_no_posters(hidden: &Option<Vec<HiddenEntry>>) -> (b: bool)
        ensures
            b == (match hidden {
                Some(entries) => entries@.len() == 0,
                None => true,
            }),
    {
        match hidden {
            Some(entries) => entries.len() == 0,
            None => true,
        }
    }

    /// The premiere date beside a hidden series, when known.
    pub fn premier_date_label(entry: &HiddenEntry) -> (s: Option<String>)
        ensures
            match entry.premier_date {
                Some(d) => s matches Some(t) && t@ == premier_date_text(d@),
                None => s is None,
            },
    {
        proof {
            reveal_strlit("(");
            reveal_strlit(")");
        }
        match &entry.premier_date {
            Some(date) => {
                let mut s = String::from_str("(");
                s.append(date.as_str());
                s.append(")");
                Some(s)
            },
            None => None,
        }
    }
}

#[derive(Debug)]
pub enum Message {
    CountrySelected(String),
    HiddenSeries(HiddenSeriesMessage),
}

/// What the widget does with `message`: the locale settings after it and
/// the action.
pub open spec fn discover_step(message: Message, settings: LocaleSettings, after: LocaleSettings, a: Action) -> bool {
    match message {
        Message::CountrySelected(name) => a is Nothing && exists|index: usize|
            #[trigger] first_named(name@, index, after.country_code@),
        Message::HiddenSeries(HiddenSeriesMessage::UnhideSeries(id)) => a == Action::UnhideSeries(id) && after
            == settings,
        Message::HiddenSeries(HiddenSeriesMessage::SeriesUnhidden) => a is Nothing && after == settings,
    }
}

/// The discover settings widget.
#[derive(Debug)]
pub struct Discover {
    /// The names the country selector offers.
    pub country_names: Vec<String>,
    pub hidden_series: HiddenSeries,
}

impl Discover {
    /// The widget, offering every country of the ISO 3166 list.
    pub fn new() -> (d: Self)
        ensures
            exists|count: nat| list_ends_at(count) && d.country_names@.map_values(|n: String| n@) == names_before(count),
    {
        Self { country_names: country_names(), hidden_series: HiddenSeries }
    }

    /// Handles a message; the chosen country goes to `settings`. A name that
    /// is not in the country list is left out by `requires`.
    pub fn update(&mut self, message: Message, settings: &mut LocaleSettings) -> (a: Action)
        requires
            message matches Message::CountrySelected(name) ==> !no_country_named(name@),
        ensures
            *final(self) == *old(self),
            discover_step(message, *old(settings), *final(settings), a),
    {
        match message {
            Message::CountrySelected(country_name) => {
                let found = get_country_code_from_country_name(country_name.as_str());
                match found {
                    Some(code) => {
                        let ghost index = choose|index: usize| #[trigger] first_named(country_name@, index, found->0@);
                        settings.country_code = code;
                        proof {
                            assert(first_named(country_name@, index, settings.country_code@));
                        }
                    },
                    None => {},
                }
                Action::Nothing
            },
            Message::HiddenSeries(message) => self.hidden_series.update(message),
        }
    }
}

} // verus!
