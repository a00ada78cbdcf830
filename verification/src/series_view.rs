//! The seasons of a series page as listed from the season list of the
//! series database: a row per season, tracked by hand, whose episodes are
//! loaded one by one when it is expanded.

use vstd::prelude::*;

use crate::helpers::{decimal, push_decimal, season_episode_str_gen, season_episode_text};

verus! {

/// A season as the series database lists it.
#[derive(Debug, Clone, Copy, PartialEq, Eq, Structural)]
pub struct SeasonInfo {
    pub number: u32,
    /// The number of episodes, when known.
    pub episode_order: Option<u32>,
}

/// An episode as the series database gives it.
#[derive(Debug)]
pub struct EpisodeInfo {
    pub name: String,
    pub season: u32,
    pub number: u32,
    pub airdate: Option<String>,
    pub airstamp: String,
    pub summary: Option<String>,
    /// Where its image can be loaded from.
    pub image_url: Option<String>,
}

#[derive(Debug)]
pub enum EpisodeMessage {
    ImageLoaded(Option<Vec<u8>>),
    TrackCheckboxPressed(bool),
}

/// An episode of an expanded season.
#[derive(Debug)]
pub struct Episode {
    pub episode_information: EpisodeInfo,
    pub episode_image: Option<Vec<u8>>,
    pub is_tracked: bool,
}

/// The texts of an episode row.
pub open spec fn optional_text(value: Option<String>) -> Seq<char> {
    match value {
        Some(v) => v@,
        None => Seq::empty(),
    }
}

/// What an episode row does with `message`: the row after it.
pub open spec fn episode_step(episode: Episode, message: EpisodeMessage, after: Episode) -> bool {
    match message {
        EpisodeMessage::ImageLoaded(image) => after == Episode { episode_image: image, ..episode },
        EpisodeMessage::TrackCheckboxPressed(value) => after == Episode { is_tracked: value, ..episode },
    }
}

impl Episode {
    /// The episode, and the address of its image to load, if any.
    pub fn new(episode_information: EpisodeInfo) -> (r: (Self, Option<String>))
        ensures
            r.0 == (Episode { episode_information, episode_image: None, is_tracked: false }),
            r.1 == episode_information.image_url,
    {
        let image_url = match &episode_information.image_url {
            Some(url) => Some(url.clone()),
            None => None,
        };
        (Self { episode_information, episode_image: None, is_tracked: false }, image_url)
    }

    pub fn update(&mut self, message: EpisodeMessage)
        ensures
            episode_step(*old(self), message, *final(self)),
    {
        match message {
            EpisodeMessage::ImageLoaded(image) => self.episode_image = image,
            EpisodeMessage::TrackCheckboxPressed(value) => self.is_tracked = value,
        }
    }

    /// The `SxxEyy` code in the heading of the row.
    pub fn heading_code(&self) -> (s: String)
        ensures
            s@ == season_episode_text(
                self.episode_information.season as nat,
                self.episode_information.number as nat,
            ),
    {
        season_episode_str_gen(self.episode_information.season, self.episode_information.number)
    }

    /// The summary line: empty when there is none.
    pub fn summary_text(&self) -> (s: String)
        ensures
            s@ == optional_text(self.episode_information.summary),
    {
        match &self.episode_information.summary {
            Some(summary) => summary.clone(),
            None => String::new(),
        }
    }

    /// The air date line: empty when there is none.
    pub fn airdate_text(&self) -> (s: String)
        ensures
            s@ == optional_text(self.episode_information.airdate),
    {
        match &self.episode_information.airdate {
            Some(airdate) => airdate.clone(),
            None => String::new(),
        }
    }
}

#[derive(Debug)]
pub enum Message {
    CheckboxPressed(bool),
    Expand,
    EpisodesLoaded(Vec<EpisodeInfo>),
    EpisodeAction(usize, EpisodeMessage),
}

/// What the caller has to do after a season handled a message.
#[derive(Debug)]
pub enum Action {
    Nothing,
    /// Load the episodes `1..=total_episodes` of the season; answer
    /// `EpisodesLoaded`.
    LoadEpisodes { total_episodes: u32, series_id: u32, season_number: u32 },
    /// Load the image of each episode, at the address given at its
    /// position, if any.
    LoadImages(Vec<Option<String>>),
}

/// A season of the series, as a row.
#[derive(Debug)]
pub struct Season {
    pub index: usize,
    pub series_id: u32,
    pub season: SeasonInfo,
    pub episodes: Vec<Episode>,
    pub is_tracked: bool,
    pub is_expanded: bool,
}

/// `Season <number>`.
pub open spec fn season_name_text(number: nat) -> Seq<char> {
    "Season "@ + decimal(number)
}

/// `0/<episodes>`: nothing is counted as watched yet.
pub open spec fn episodes_progress_text(episode_order: Option<u32>) -> Seq<char> {
    "0/"@ + decimal(
        match episode_order {
            Some(n) => n as nat,
            None => 0,
        },
    )
}

impl Season {
    pub fn new(index: usize, season_info: SeasonInfo, series_id: u32) -> (s: Self)
        ensures
            s.index == index,
            s.season == season_info,
            s.series_id == series_id,
            s.episodes@.len() == 0,
            !s.is_tracked,
            !s.is_expanded,
    {
        Self { index, series_id, season: season_info, episodes: Vec::new(), is_tracked: false, is_expanded: false }
    }

    pub fn update(&mut self, message: Message) -> (a: Action)
        requires
            message matches Message::EpisodeAction(i, _) ==> i < old(self).episodes@.len(),
        ensures
            final(self).index == old(self).index,
            final(self).series_id == old(self).series_id,
            final(self).season == old(self).season,
            message matches Message::CheckboxPressed(status) ==> a is Nothing && final(self).episodes
                == old(self).episodes && final(self).is_expanded == old(self).is_expanded
                && final(self).is_tracked == (if old(self).season.episode_order is Some {
                status
            } else {
                old(self).is_tracked
            }),
            message is Expand ==> final(self).is_expanded == !old(self).is_expanded && final(self).episodes
                == old(self).episodes && final(self).is_tracked == old(self).is_tracked && (if old(self).episodes@.len()
                == 0 && old(self).season.episode_order is Some {
                a == (Action::LoadEpisodes {
                    total_episodes: old(self).season.episode_order->0,
                    series_id: old(self).series_id,
                    season_number: old(self).season.number,
                })
            } else {
                a is Nothing
            }),
            message matches Message::EpisodesLoaded(infos) ==> final(self).episodes@.len() == infos@.len()
                && final(self).is_tracked == old(self).is_tracked && final(self).is_expanded == old(self).is_expanded
                && (forall|i: int|
                0 <= i < infos@.len() ==> #[trigger] final(self).episodes@[i] == (Episode {
                    episode_information: infos@[i],
                    episode_image: None,
                    is_tracked: false,
                })),
            message matches Message::EpisodesLoaded(infos) ==> (a matches Action::LoadImages(images)
                && images@ == infos@.map_values(|e: EpisodeInfo| e.image_url)),
            message matches Message::EpisodeAction(i, m) ==> a is Nothing && final(self).episodes@.len()
                == old(self).episodes@.len() && final(self).is_tracked == old(self).is_tracked
                && final(self).is_expanded == old(self).is_expanded && episode_step(
                old(self).episodes@[i as int],
                m,
                final(self).episodes@[i as int],
            ) && forall|j: int|
                0 <= j < old(self).episodes@.len() && j != i ==> final(self).episodes@[j] == old(self).episodes@[j],
    {
        match message {
            Message::CheckboxPressed(status) => {
                if self.season.episode_order.is_some() {
                    self.is_tracked = status;
                }
                Action::Nothing
            },
            Message::Expand => {
                self.is_expanded = !self.is_expanded;
                if self.episodes.len() > 0 {
                    return Action::Nothing;
                }
                match self.season.episode_order {
                    Some(total_episodes) => Action::LoadEpisodes {
                        total_episodes,
                        series_id: self.series_id,
                        season_number: self.season.number,
                    },
                    None => Action::Nothing,
                }
            },
            Message::EpisodesLoaded(infos) => {
                let ghost loaded = infos@;
                let mut episodes: Vec<Episode> = Vec::new();
                let mut images: Vec<Option<String>> = Vec::new();
                let mut rest = infos;
                let count = rest.len();
                let mut k: usize = 0;
                while rest.len() > 0
                    invariant
                        k + rest@.len() == loaded.len(),
                        loaded.len() == count,
                        rest@ == loaded.subrange(k as int, loaded.len() as int),
                        episodes@.len() == k,
                        forall|i: int|
                            0 <= i < k ==> #[trigger] episodes@[i] == (Episode {
                                episode_information: loaded[i],
                                episode_image: None,
                                is_tracked: false,
                            }),
                        images@ == loaded.take(k as int).map_values(|e: EpisodeInfo| e.image_url),
                    decreases rest@.len(),
                {
                    let info = rest.remove(0);
                    proof {
                        assert(info == loaded[k as int]);
                    }
                    let (episode, image_url) = Episode::new(info);
                    episodes.push(episode);
                    images.push(image_url);
                    proof {
                        assert(images@ =~= loaded.take(k + 1).map_values(|e: EpisodeInfo| e.image_url));
                    }
                    proof {
                        assert(rest@ =~= loaded.subrange(k + 1, loaded.len() as int));
                    }
                    k = k + 1;
                }
                proof {
                    assert(loaded.take(k as int) =~= loaded);
                }
                self.episodes = episodes;
                Action::LoadImages(images)
            },
            Message::EpisodeAction(index, message) => {
                let mut episodes: Vec<Episode> = Vec::new();
                std::mem::swap(&mut episodes, &mut self.episodes);
                let mut episode = episodes.remove(index);
                episode.update(message);
                episodes.insert(index, episode);
                self.episodes = episodes;
                Action::Nothing
            },
        }
    }

    /// The name of the row.
    pub fn season_name(&self) -> (s: String)
        ensures
            s@ == season_name_text(self.season.number as nat),
    {
        let mut s = String::from_str("Season ");
        push_decimal(&mut s, self.season.number);
        proof {
            reveal_strlit("Season ");
        }
        s
    }

    /// The progress text of the row.
    pub fn episodes_progress(&self) -> (s: String)
        ensures
            s@ == episodes_progress_text(self.season.episode_order),
    {
        let mut s = String::from_str("0/");
        let total = match self.season.episode_order {
            Some(n) => n,
            None => 0,
        };
        push_decimal(&mut s, total);
        proof {
            reveal_strlit("0/");
        }
        s
    }

    /// Whether the episodes are shown below the row.
    pub fn shows_episodes(&self) -> (b: bool)
        ensures
            b == (self.is_expanded && self.episodes@.len() > 0),
    {
        self.is_expanded && self.episodes.len() > 0
    }
}

} // verus!
