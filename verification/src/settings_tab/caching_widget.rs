//! The cache settings: how often each kind of cache is cleaned on its own,
//! and the buttons that clean one now.

use vstd::prelude::*;

use crate::helpers::{decimal, push_decimal};
use crate::settings_config::CacheSettings;

verus! {

/// A kind of cache: of the series being aired, of the ended series, of the
/// series waiting for a release date.
#[derive(Debug, Clone, Copy, PartialEq, Eq, Structural)]
pub enum CacheKind {
    Aired,
    Ended,
    WaitingRelease,
}

#[derive(Debug)]
pub enum FrequencyMessage {
    Aired(u32),
    Ended(u32),
    WaitingRelease(u32),
}

/// The sliders of the cleaning frequency of each kind of cache.
#[derive(Debug, Clone, Copy, PartialEq, Eq, Structural)]
pub struct CacheCleaningFrequency;

/// `Cache cleaning frequency for <kind>: <days> days`.
pub open spec fn frequency_text(kind: CacheKind, days: nat) -> Seq<char> {
    "Cache cleaning frequency for "@ + match kind {
        CacheKind::Aired => "aired series"@,
        CacheKind::Ended => "ended series"@,
        CacheKind::WaitingRelease => "series waiting for release date"@,
    } + ": "@ + decimal(days) + " days"@
}

/// The highest value of the slider of each kind, in days (the lowest is 1).
pub open spec fn slider_max(kind: CacheKind) -> u32 {
    match kind {
        CacheKind::Aired => 7,
        CacheKind::Ended => 30,
        CacheKind::WaitingRelease => 14,
    }
}

impl CacheCleaningFrequency {
    /// Stores the frequency chosen on a slider in the settings.
    pub fn update(&mut self, message: FrequencyMessage, settings: &mut CacheSettings)
        ensures
            message matches FrequencyMessage::Aired(v) ==> *final(settings) == (CacheSettings {
                aired_cache_clean_frequency: v,
                ..*old(settings)
            }),
            message matches FrequencyMessage::Ended(v) ==> *final(settings) == (CacheSettings {
                ended_cache_clean_frequency: v,
                ..*old(settings)
            }),
            message matches FrequencyMessage::WaitingRelease(v) ==> *final(settings) == (CacheSettings {
                waiting_release_cache_clean_frequency: v,
                ..*old(settings)
            }),
    {
        match message {
            FrequencyMessage::Aired(new_value) => settings.aired_cache_clean_frequency = new_value,
            FrequencyMessage::Ended(new_value) => settings.ended_cache_clean_frequency = new_value,
            FrequencyMessage::WaitingRelease(new_value) => settings.waiting_release_cache_clean_frequency = new_value,
        }
    }

    /// The range of the slider of a kind, in days.
    pub fn slider_range(kind: CacheKind) -> (r: (u32, u32))
        ensures
            r == (1u32, slider_max(kind)),
    {
        match kind {
            CacheKind::Aired => (1, 7),
            CacheKind::Ended => (1, 30),
            CacheKind::WaitingRelease => (1, 14),
        }
    }

    /// The label above the slider of a kind.
    pub fn frequency_label(kind: CacheKind, settings: &CacheSettings) -> (s: String)
        ensures
            s@ == frequency_text(
                kind,
                match kind {
                    CacheKind::Aired => settings.aired_cache_clean_frequency as nat,
                    CacheKind::Ended => settings.ended_cache_clean_frequency as nat,
                    CacheKind::WaitingRelease => settings.waiting_release_cache_clean_frequency as nat,
                },
            ),
    {
        proof {
            reveal_strlit("Cache cleaning frequency for ");
            reveal_strlit("aired series");
            reveal_strlit("ended series");
            reveal_strlit("series waiting for release date");
            reveal_strlit(": ");
            reveal_strlit(" days");
        }
        let mut s = String::from_str("Cache cleaning frequency for ");
        let days = match kind {
            CacheKind::Aired => {
                s.append("aired series");
                settings.aired_cache_clean_frequency
            },
            CacheKind::Ended => {
                s.append("ended series");
                settings.ended_cache_clean_frequency
            },
            CacheKind::WaitingRelease => {
                s.append("series waiting for release date");
                settings.waiting_release_cache_clean_frequency
            },
        };
        s.append(": ");
        push_decimal(&mut s, days);
        s.append(" days");
        proof {
            assert(s@ =~= frequency_text(kind, days as nat));
        }
        s
    }
}

/// Where the cleaning of a kind of cache is.
#[derive(Debug, Clone, PartialEq, Eq)]
pub enum CleaningStatus {
    Idle,
    Running,
    /// It ended, with the error that stopped it, if any.
    Done(Option<String>),
}

#[derive(Debug)]
pub enum Message {
    CleanEndedCache,
    CleanWaitingReleaseCache,
    CleanAiredCache,
    CleanEndedCacheComplete(Option<String>),
    CleanWaitingReleaseCacheComplete(Option<String>),
    CleanAiredCacheComplete(Option<String>),
    CleanEndedCacheTimeoutComplete,
    CleanWaitingReleaseCacheTimeoutComplete,
    CleanAiredCacheTimeoutComplete,
    CacheCleaningFrequency(FrequencyMessage),
}

/// What the caller has to do after the widget handled a message.
#[derive(Debug, Clone, Copy, PartialEq, Eq, Structural)]
pub enum Action {
    Nothing,
    /// Clean the cache of this kind; answer with its `...Complete` message.
    Clean(CacheKind),
    /// Wait a few seconds, then answer with the `...TimeoutComplete`
    /// message of this kind, which clears its status.
    StatusTimeout(CacheKind),
}

/// The cache widget.
#[derive(Debug)]
pub struct Caching {
    pub ended_series_cache_cleaning: CleaningStatus,
    pub aired_series_cache_cleaning: CleaningStatus,
    pub waiting_release_series_cache_cleaning: CleaningStatus,
    pub caching_frequency_settings_widget: CacheCleaningFrequency,
}

impl Caching {
    /// The status of the cleaning of a kind of cache.
    pub open spec fn status_of(&self, kind: CacheKind) -> CleaningStatus {
        match kind {
            CacheKind::Aired => self.aired_series_cache_cleaning,
            CacheKind::Ended => self.ended_series_cache_cleaning,
            CacheKind::WaitingRelease => self.waiting_release_series_cache_cleaning,
        }
    }

    /// The statuses, but for `kind`, are those of `other`.
    pub open spec fn others_unchanged(&self, other: &Caching, kind: CacheKind) -> bool {
        forall|k: CacheKind| k != kind ==> self.status_of(k) == other.status_of(k)
    }

    pub fn new() -> (c: Self)
        ensures
            c.ended_series_cache_cleaning == CleaningStatus::Idle,
            c.aired_series_cache_cleaning == CleaningStatus::Idle,
            c.waiting_release_series_cache_cleaning == CleaningStatus::Idle,
    {
        Self {
            ended_series_cache_cleaning: CleaningStatus::Idle,
            aired_series_cache_cleaning: CleaningStatus::Idle,
            waiting_release_series_cache_cleaning: CleaningStatus::Idle,
            caching_frequency_settings_widget: CacheCleaningFrequency,
        }
    }

    /// Handles a message; the frequencies chosen go to `settings`.
    pub fn update(&mut self, message: Message, settings: &mut CacheSettings) -> (a: Action)
        ensures
            message is CleanEndedCache ==> a == Action::Clean(CacheKind::Ended) && final(self).status_of(CacheKind::Ended) == CleaningStatus::Running && final(self).others_unchanged(old(self), CacheKind::Ended),
            message is CleanAiredCache ==> a == Action::Clean(CacheKind::Aired) && final(self).status_of(CacheKind::Aired) == CleaningStatus::Running && final(self).others_unchanged(old(self), CacheKind::Aired),
            message is CleanWaitingReleaseCache ==> a == Action::Clean(CacheKind::WaitingRelease) && final(self).status_of(CacheKind::WaitingRelease) == CleaningStatus::Running && final(self).others_unchanged(old(self), CacheKind::WaitingRelease),
            message matches Message::CleanEndedCacheComplete(e) ==> a == Action::StatusTimeout(CacheKind::Ended)
                && final(self).status_of(CacheKind::Ended) == CleaningStatus::Done(e) && final(self).others_unchanged(old(self), CacheKind::Ended),
            message matches Message::CleanAiredCacheComplete(e) ==> a == Action::StatusTimeout(CacheKind::Aired)
                && final(self).status_of(CacheKind::Aired) == CleaningStatus::Done(e) && final(self).others_unchanged(old(self), CacheKind::Aired),
            message matches Message::CleanWaitingReleaseCacheComplete(e) ==> a == Action::StatusTimeout(CacheKind::WaitingRelease) && final(self).status_of(CacheKind::WaitingRelease) == CleaningStatus::Done(e) && final(self).others_unchanged(old(self), CacheKind::WaitingRelease),
            message is CleanEndedCacheTimeoutComplete ==> a is Nothing && final(self).status_of(CacheKind::Ended)
                == CleaningStatus::Idle && final(self).others_unchanged(old(self), CacheKind::Ended),
            message is CleanAiredCacheTimeoutComplete ==> a is Nothing && final(self).status_of(CacheKind::Aired)
                == CleaningStatus::Idle && final(self).others_unchanged(old(self), CacheKind::Aired),
            message is CleanWaitingReleaseCacheTimeoutComplete ==> a is Nothing && final(self).status_of(CacheKind::WaitingRelease) == CleaningStatus::Idle && final(self).others_unchanged(old(self), CacheKind::WaitingRelease),
            message is CacheCleaningFrequency ==> a is Nothing && final(self).ended_series_cache_cleaning
                == old(self).ended_series_cache_cleaning && final(self).aired_series_cache_cleaning
                == old(self).aired_series_cache_cleaning && final(self).waiting_release_series_cache_cleaning
                == old(self).waiting_release_series_cache_cleaning,
            message matches Message::CacheCleaningFrequency(FrequencyMessage::Aired(v)) ==> *final(settings) == (
            CacheSettings { aired_cache_clean_frequency: v, ..*old(settings) }),
            message matches Message::CacheCleaningFrequency(FrequencyMessage::Ended(v)) ==> *final(settings) == (
            CacheSettings { ended_cache_clean_frequency: v, ..*old(settings) }),
            message matches Message::CacheCleaningFrequency(FrequencyMessage::WaitingRelease(v)) ==> *final(settings)
                == (CacheSettings { waiting_release_cache_clean_frequency: v, ..*old(settings) }),
            !(message is CacheCleaningFrequency) ==> *final(settings) == *old(settings),
    {
        match message {
            Message::CleanEndedCache => {
                self.ended_series_cache_cleaning = CleaningStatus::Running;
                Action::Clean(CacheKind::Ended)
            },
            Message::CleanWaitingReleaseCache => {
                self.waiting_release_series_cache_cleaning = CleaningStatus::Running;
                Action::Clean(CacheKind::WaitingRelease)
            },
            Message::CleanAiredCache => {
                self.aired_series_cache_cleaning = CleaningStatus::Running;
                Action::Clean(CacheKind::Aired)
            },
            Message::CleanEndedCacheComplete(error_text) => {
                self.ended_series_cache_cleaning = CleaningStatus::Done(error_text);
                Action::StatusTimeout(CacheKind::Ended)
            },
            Message::CleanWaitingReleaseCacheComplete(error_text) => {
                self.waiting_release_series_cache_cleaning = CleaningStatus::Done(error_text);
                Action::StatusTimeout(CacheKind::WaitingRelease)
            },
            Message::CleanAiredCacheComplete(error_text) => {
                self.aired_series_cache_cleaning = CleaningStatus::Done(error_text);
                Action::StatusTimeout(CacheKind::Aired)
            },
            Message::CleanEndedCacheTimeoutComplete => {
                self.ended_series_cache_cleaning = CleaningStatus::Idle;
                Action::Nothing
            },
            Message::CleanWaitingReleaseCacheTimeoutComplete => {
                self.waiting_release_series_cache_cleaning = CleaningStatus::Idle;
                Action::Nothing
            },
            Message::CleanAiredCacheTimeoutComplete => {
                self.aired_series_cache_cleaning = CleaningStatus::Idle;
                Action::Nothing
            },
            Message::CacheCleaningFrequency(message) => {
                self.caching_frequency_settings_widget.update(message, settings);
                Action::Nothing
            },
        }
    }
}

/// The status text of a cleaning and its colour.
#[derive(Debug, Clone, PartialEq, Eq)]
pub enum StatusText {
    /// Nothing is shown.
    Blank,
    Running,
    /// "Done!", in green.
    Done,
    /// The error, in red.
    Failed(String),
}

/// The status text shown beside the clean button of a kind of cache, and
/// whether the button can be pressed: not while the cleaning runs.
pub fn status_and_button_gen(cleaning_status: &CleaningStatus) -> (r: (StatusText, bool))
    ensures
        r == (match *cleaning_status {
            CleaningStatus::Idle => (StatusText::Blank, true),
            CleaningStatus::Running => (StatusText::Running, false),
            CleaningStatus::Done(None) => (StatusText::Done, true),
            CleaningStatus::Done(Some(e)) => (StatusText::Failed(e), true),
        }),
{
    match cleaning_status {
        CleaningStatus::Idle => (StatusText::Blank, true),
        CleaningStatus::Running => (StatusText::Running, false),
        CleaningStatus::Done(error_message) => match error_message {
            Some(e) => (StatusText::Failed(e.clone()), true),
            None => (StatusText::Done, true),
        },
    }
}

/// A cleaning that was started can be started again only once it is over:
/// the button is pressable exactly when no cleaning of that kind runs.
pub proof fn lemma_button_only_when_not_running(status: CleaningStatus)
    ensures
        (match status {
            CleaningStatus::Idle => (StatusText::Blank, true),
            CleaningStatus::Running => (StatusText::Running, false),
            CleaningStatus::Done(None) => (StatusText::Done, true),
            CleaningStatus::Done(Some(e)) => (StatusText::Failed(e), true),
        }).1 <==> status != CleaningStatus::Running,
{
}

} // verus!
