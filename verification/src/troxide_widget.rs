//! The series poster shown in the lists of series: its image, its expanded
//! form with the series' details, and hiding the series from Discover.

use vstd::prelude::*;

use crate::helpers::{genre_separator, genres_with_pipes, join, string_views};
use crate::series_information::{duplicate_option, same_information, SeriesMainInformation};

verus! {

#[derive(Debug)]
pub enum GenericPosterMessage {
    /// The poster's image arrived, or could not be loaded.
    ImageLoaded(Option<Vec<u8>>),
}

/// A series with its poster image, once loaded.
#[derive(Debug)]
pub struct GenericPoster {
    pub series_information: SeriesMainInformation,
    pub image: Option<Vec<u8>>,
}

impl GenericPoster {
    /// The poster, with the address of the image to load when the series has
    /// one.
    pub fn new(series_information: SeriesMainInformation) -> (r: (Self, Option<String>))
        ensures
            r.0.series_information == series_information,
            r.0.image is None,
            r.1 == series_information.image,
    {
        let image_url = duplicate_option(&series_information.image);
        (Self { series_information, image: None }, image_url)
    }

    pub fn update(&mut self, message: GenericPosterMessage)
        ensures
            final(self).series_information == old(self).series_information,
            match message {
                GenericPosterMessage::ImageLoaded(image) => final(self).image == image,
            },
    {
        match message {
            GenericPosterMessage::ImageLoaded(image) => self.image = image,
        }
    }

    pub fn get_series_info(&self) -> (r: &SeriesMainInformation)
        ensures
            *r == self.series_information,
    {
        &self.series_information
    }

    /// The information to hand to the series page that opens for this
    /// poster.
    pub fn open_series_page(&self) -> (r: SeriesMainInformation)
        ensures
            same_information(r, self.series_information),
    {
        self.series_information.duplicate()
    }

    pub fn get_image(&self) -> (r: Option<&Vec<u8>>)
        ensures
            match self.image {
                Some(i) => r == Some(&i),
                None => r is None,
            },
    {
        match &self.image {
            Some(i) => Some(i),
            None => None,
        }
    }
}

#[derive(Debug)]
pub enum Message {
    Poster(GenericPosterMessage),
    SeriesPosterPressed,
    Expand,
    Hide,
    SeriesHidden,
}

/// What the caller has to do after a poster handled a message.
#[derive(Debug)]
pub enum Action {
    Nothing,
    /// Load the image at this address; answer `Poster(ImageLoaded(..))`.
    LoadImage(String),
    /// Open the page of this series.
    OpenSeriesPage(SeriesMainInformation),
    /// Hide this series from Discover; answer `SeriesHidden`.
    HideSeries { series_id: u32, series_name: String, premiered: Option<String> },
}

/// A series poster at a position of a list, which can be expanded to show
/// the series' details and hidden from Discover.
#[derive(Debug)]
pub struct SeriesPoster {
    pub index: usize,
    pub poster: GenericPoster,
    pub expanded: bool,
    pub hidden: bool,
}

/// The height of the poster image: larger when the poster is expanded.
pub open spec fn image_height(expanded: bool) -> u32 {
    if expanded {
        170
    } else {
        140
    }
}

/// `Premiered: <date>`.
pub open spec fn premier_line(date: Seq<char>) -> Seq<char> {
    "Premiered: "@ + date
}

impl SeriesPoster {
    /// The poster at position `index`, shrunk and shown, with the image to
    /// load when the series has one.
    pub fn new(index: usize, series_information: SeriesMainInformation) -> (r: (Self, Action))
        ensures
            r.0.index == index,
            r.0.poster.series_information == series_information,
            r.0.poster.image is None,
            !r.0.expanded,
            !r.0.hidden,
            match series_information.image {
                Some(url) => r.1 matches Action::LoadImage(u) && u == url,
                None => r.1 is Nothing,
            },
    {
        let (poster, image_url) = GenericPoster::new(series_information);
        let action = match image_url {
            Some(url) => Action::LoadImage(url),
            None => Action::Nothing,
        };
        (Self { index, poster, expanded: false, hidden: false }, action)
    }

    pub fn update(&mut self, message: Message) -> (a: Action)
        ensures
            final(self).index == old(self).index,
            final(self).poster.series_information == old(self).poster.series_information,
            match message {
                Message::SeriesPosterPressed => {
                    &&& a matches Action::OpenSeriesPage(info) && same_information(
                        info,
                        old(self).poster.series_information,
                    )
                    &&& final(self).poster.image == old(self).poster.image
                    &&& final(self).expanded == old(self).expanded
                    &&& final(self).hidden == old(self).hidden
                },
                Message::Expand => {
                    &&& a is Nothing
                    &&& final(self).poster.image == old(self).poster.image
                    &&& final(self).expanded == !old(self).expanded
                    &&& final(self).hidden == old(self).hidden
                },
                Message::Hide => {
                    &&& a matches Action::HideSeries { series_id, series_name, premiered } && series_id
                        == old(self).poster.series_information.id && series_name
                        == old(self).poster.series_information.name && premiered
                        == old(self).poster.series_information.premiered
                    &&& final(self).poster.image == old(self).poster.image
                    &&& final(self).expanded == old(self).expanded
                    &&& final(self).hidden == old(self).hidden
                },
                Message::SeriesHidden => {
                    &&& a is Nothing
                    &&& final(self).poster.image == old(self).poster.image
                    &&& final(self).expanded == old(self).expanded
                    &&& final(self).hidden
                },
                Message::Poster(GenericPosterMessage::ImageLoaded(image)) => {
                    &&& a is Nothing
                    &&& final(self).poster.image == image
                    &&& final(self).expanded == old(self).expanded
                    &&& final(self).hidden == old(self).hidden
                },
            },
    {
        match message {
            Message::SeriesPosterPressed => Action::OpenSeriesPage(self.poster.open_series_page()),
            Message::Expand => {
                self.expanded = !self.expanded;
                Action::Nothing
            },
            Message::Hide => {
                let info = self.poster.get_series_info();
                Action::HideSeries {
                    series_id: info.id,
                    series_name: info.name.clone(),
                    premiered: duplicate_option(&info.premiered),
                }
            },
            Message::SeriesHidden => {
                self.hidden = true;
                Action::Nothing
            },
            Message::Poster(message) => {
                self.poster.update(message);
                Action::Nothing
            },
        }
    }

    pub fn is_hidden(&self) -> (b: bool)
        ensures
            b == self.hidden,
    {
        self.hidden
    }

    /// The height of the poster image (see [`image_height`]).
    pub fn image_height(&self) -> (h: u32)
        ensures
            h == image_height(self.expanded),
    {
        if self.expanded {
            170
        } else {
            140
        }
    }

    /// The line telling when the series premiered, when it is known.
    pub fn premier_text(premier_date: Option<&str>) -> (s: Option<String>)
        ensures
            match premier_date {
                Some(d) => s matches Some(t) && t@ == premier_line(d@),
                None => s is None,
            },
    {
        match premier_date {
            Some(date) => {
                let mut s = String::from_str("Premiered: ");
                s.append(date);
                proof {
                    reveal_strlit("Premiered: ");
                }
                Some(s)
            },
            None => None,
        }
    }

    /// The genres joined by pipes, when there is any.
    pub fn genres_text(genres: &[String]) -> (s: Option<String>)
        ensures
            genres@.len() == 0 ==> s is None,
            genres@.len() > 0 ==> (s matches Some(t) && t@ == join(string_views(genres@), genre_separator())),
    {
        if genres.len() == 0 {
            None
        } else {
            Some(genres_with_pipes(genres))
        }
    }
}

} // verus!
