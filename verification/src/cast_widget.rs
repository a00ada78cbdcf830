//! The cast part of a series page: a poster per cast member, the first
//! twenty shown until the list is expanded, each switching between the
//! person and the character played.

use vstd::prelude::*;

use crate::helpers::time::{plurized_parts, split_minutes, text_parts, NaiveTime, TextParts};
use crate::helpers::{decimal, push_decimal};

verus! {

/// How many cast members are shown before the list is expanded.
pub const INITIAL_CAST_NUMBER: usize = 20;

/// A person of the cast.
#[derive(Debug)]
pub struct Person {
    pub name: String,
    pub gender: Option<String>,
    /// `YYYY-MM-DD`.
    pub birthday: Option<String>,
    pub deathday: Option<String>,
    /// The name of the country of birth.
    pub country: Option<String>,
    pub image: Option<String>,
}

/// The character a person plays.
#[derive(Debug)]
pub struct Character {
    pub name: String,
    pub image: Option<String>,
}

/// A member of the cast.
#[derive(Debug)]
pub struct Cast {
    pub person: Person,
    pub character: Character,
}

/// The day a `YYYY-MM-DD` date stands for, counted from the first day of
/// the common era (day 1), or `None` when the text is not such a date.
pub uninterp spec fn date_days_from_ce(text: Seq<char>) -> Option<i32>;

/// `chrono::NaiveDate::parse_from_str(text, "%Y-%m-%d")` followed by
/// `Datelike::num_days_from_ce`: the day of the date, named by
/// `date_days_from_ce`.
#[verifier::external_body]
fn parse_date_days_from_ce(text: &str) -> (r: Option<i32>)
    ensures
        r == date_days_from_ce(text@),
{
    match chrono::NaiveDate::parse_from_str(text, "%Y-%m-%d") {
        Ok(date) => Some(chrono::Datelike::num_days_from_ce(&date)),
        Err(_) => None,
    }
}

/// The day of the Unix epoch, counted from the first day of the common era.
pub open spec fn epoch_days_from_ce() -> int {
    719163
}

/// The minutes from the start of the birthday to `now` (seconds since the
/// Unix epoch), rounded toward zero, as the time splitting takes them:
/// truncated to 32 bits.
pub open spec fn minutes_since_birth(birth_days_from_ce: i32, now: i64) -> nat {
    let seconds = now - (birth_days_from_ce - epoch_days_from_ce()) * 86400;
    let minutes = if seconds >= 0 { seconds / 60 } else { -((-seconds) / 60) };
    (minutes as u32) as nat
}

/// The age line of a person: the last part of the time since birth, or
/// "Just born" when less than a minute has passed.
#[derive(Debug, PartialEq, Eq)]
pub enum Age {
    JustBorn,
    /// `<value> <unit>` of the last part.
    Age(String),
}

/// The age line of a person alive at `now`, when the birthday is known and
/// valid.
pub fn age_line(person: &Person, now: i64) -> (r: Option<Age>)
    ensures
        person.deathday is Some ==> r is None,
        person.deathday is None ==> match person.birthday {
            None => r is None,
            Some(b) => match date_days_from_ce(b@) {
                None => r is None,
                Some(days) => {
                    let parts = plurized_parts(split_minutes(minutes_since_birth(days, now)));
                    if parts.len() == 0 {
                        r == Some(Age::JustBorn)
                    } else {
                        r matches Some(Age::Age(t)) && t@ == decimal(parts.last().0 as nat) + " "@ + parts.last().1
                    }
                },
            },
        },
{
    if person.deathday.is_some() {
        return None;
    }
    let birthday = match &person.birthday {
        Some(b) => b,
        None => return None,
    };
    let days = match parse_date_days_from_ce(birthday.as_str()) {
        Some(d) => d,
        None => return None,
    };
    let seconds: i128 = (now as i128) - ((days as i128) - 719163) * 86400;
    let minutes: i128 = if seconds >= 0 {
        seconds / 60
    } else {
        -((-seconds) / 60)
    };
    let truncated: u32 = #[verifier::truncate] (minutes as u32);
    proof {
        assert(truncated as nat == minutes_since_birth(days, now));
    }
    let parts = NaiveTime::new(truncated).as_parts().into_vec();
    if parts.len() == 0 {
        Some(Age::JustBorn)
    } else {
        let last = parts.len() - 1;
        let mut t = String::new();
        push_decimal(&mut t, parts[last].0);
        t.append(" ");
        t.append(parts[last].1.as_str());
        proof {
            reveal_strlit(" ");
        }
        Some(Age::Age(t))
    }
}

/// Which image a cast poster shows.
#[derive(Debug, Clone, Copy, PartialEq, Eq, Structural)]
pub enum DisplayImage {
    Person,
    Character,
}

#[derive(Debug)]
pub enum CastMessage {
    PersonImageLoaded(Option<Vec<u8>>),
    CharacterImageLoaded(Option<Vec<u8>>),
    SwitchDisplayImage,
}

/// What the caller has to do after a poster handled a message.
#[derive(Debug)]
pub enum CastAction {
    Nothing,
    /// Load the person's image from this address; answer
    /// `PersonImageLoaded`.
    LoadPersonImage(String),
    /// Load the character's image from this address; answer
    /// `CharacterImageLoaded`.
    LoadCharacterImage(String),
}

/// The poster of a member of the cast.
#[derive(Debug)]
pub struct CastPoster {
    pub index: usize,
    pub cast: Cast,
    pub person_image: Option<Vec<u8>>,
    pub character_image: Option<Vec<u8>>,
    pub character_image_loading: bool,
    pub current_display_image: DisplayImage,
}

/// Whether `poster` is the poster of `cast` at position `index` just made:
/// showing the person, with no image loaded.
pub open spec fn is_new_poster(poster: CastPoster, index: usize, cast: Cast) -> bool {
    poster == CastPoster {
        index,
        cast,
        person_image: None,
        character_image: None,
        character_image_loading: false,
        current_display_image: DisplayImage::Person,
    }
}

/// The loading of the person's image that a new poster asks for.
pub open spec fn person_image_load(cast: Cast) -> CastAction {
    match cast.person.image {
        Some(url) => CastAction::LoadPersonImage(url),
        None => CastAction::Nothing,
    }
}

/// What a poster does with `message`: the poster after it and the action.
pub open spec fn cast_poster_step(poster: CastPoster, message: CastMessage, after: CastPoster, a: CastAction) -> bool {
    match message {
        CastMessage::PersonImageLoaded(image) => a is Nothing && after == CastPoster { person_image: image, ..poster },
        CastMessage::CharacterImageLoaded(image) => a is Nothing && after == CastPoster {
            character_image: image,
            character_image_loading: false,
            ..poster
        },
        CastMessage::SwitchDisplayImage => if poster.current_display_image == DisplayImage::Character {
            a is Nothing && after == CastPoster { current_display_image: DisplayImage::Person, ..poster }
        } else if poster.character_image is None && !poster.character_image_loading {
            after == CastPoster {
                current_display_image: DisplayImage::Character,
                character_image_loading: true,
                ..poster
            } && match poster.cast.character.image {
                Some(url) => a == CastAction::LoadCharacterImage(url),
                None => a is Nothing,
            }
        } else {
            a is Nothing && after == CastPoster { current_display_image: DisplayImage::Character, ..poster }
        },
    }
}

/// `as <character>`.
pub open spec fn character_line(name: Seq<char>) -> Seq<char> {
    "as "@ + name
}

impl CastPoster {
    /// The poster, with the person's image to load when there is one.
    pub fn new(index: usize, cast: Cast) -> (r: (Self, CastAction))
        ensures
            is_new_poster(r.0, index, cast),
            r.1 == person_image_load(cast),
    {
        let action = match &cast.person.image {
            Some(url) => CastAction::LoadPersonImage(url.clone()),
            None => CastAction::Nothing,
        };
        (
            Self {
                index,
                cast,
                person_image: None,
                character_image: None,
                character_image_loading: false,
                current_display_image: DisplayImage::Person,
            },
            action,
        )
    }

    pub fn update(&mut self, message: CastMessage) -> (a: CastAction)
        ensures
            cast_poster_step(*old(self), message, *final(self), a),
    {
        match message {
            CastMessage::PersonImageLoaded(image) => {
                self.person_image = image;
                CastAction::Nothing
            },
            CastMessage::CharacterImageLoaded(image) => {
                self.character_image = image;
                self.character_image_loading = false;
                CastAction::Nothing
            },
            CastMessage::SwitchDisplayImage => match self.current_display_image {
                DisplayImage::Person => {
                    self.current_display_image = DisplayImage::Character;
                    if self.character_image.is_none() && !self.character_image_loading {
                        self.character_image_loading = true;
                        match &self.cast.character.image {
                            Some(url) => CastAction::LoadCharacterImage(url.clone()),
                            None => CastAction::Nothing,
                        }
                    } else {
                        CastAction::Nothing
                    }
                },
                DisplayImage::Character => {
                    self.current_display_image = DisplayImage::Person;
                    CastAction::Nothing
                },
            },
        }
    }

    /// The image shown, when loaded.
    pub fn shown_image(&self) -> (r: Option<&Vec<u8>>)
        ensures
            r == match self.current_display_image {
                DisplayImage::Person => match self.person_image {
                    Some(i) => Some(&i),
                    None => None::<&Vec<u8>>,
                },
                DisplayImage::Character => match self.character_image {
                    Some(i) => Some(&i),
                    None => None::<&Vec<u8>>,
                },
            },
    {
        match self.current_display_image {
            DisplayImage::Person => match &self.person_image {
                Some(i) => Some(i),
                None => None,
            },
            DisplayImage::Character => match &self.character_image {
                Some(i) => Some(i),
                None => None,
            },
        }
    }

    /// The button that switches the image: shown when the character has an
    /// image, pressable while that image is not loading. `None` when not
    /// shown, else whether it can be pressed.
    pub fn image_switch_button(&self) -> (r: Option<bool>)
        ensures
            self.cast.character.image is None ==> r is None,
            self.cast.character.image is Some ==> r == Some(!self.character_image_loading),
    {
        if self.cast.character.image.is_some() {
            Some(!self.character_image_loading)
        } else {
            None
        }
    }

    /// The line under the person's name.
    pub fn character_text(&self) -> (s: String)
        ensures
            s@ == character_line(self.cast.character.name@),
    {
        let mut s = String::from_str("as ");
        s.append(self.cast.character.name.as_str());
        proof {
            reveal_strlit("as ");
        }
        s
    }
}

#[derive(Debug)]
pub enum Message {
    CastReceived(Vec<Cast>),
    Cast(usize, CastMessage),
    Expand,
    Shrink,
}

/// What the caller has to do after the cast part handled a message.
#[derive(Debug)]
pub enum Action {
    Nothing,
    /// Load the cast of the series with this id; answer `CastReceived`.
    LoadCast(u32),
    /// What the posters, in order, ask for.
    Posters(Vec<CastAction>),
    Poster(CastAction),
}

#[derive(Debug, Clone, Copy, PartialEq, Eq, Structural)]
pub enum LoadState {
    Loading,
    Loaded,
}

/// The button below the cast: "show more" while folded, "show less" once
/// expanded; only when the cast is longer than what is first shown.
#[derive(Debug, Clone, Copy, PartialEq, Eq, Structural)]
pub enum Expansion {
    ShowMore,
    ShowLess,
}

/// The cast part of a series page.
#[derive(Debug)]
pub struct CastWidget {
    pub load_state: LoadState,
    pub casts: Vec<CastPoster>,
    pub is_expanded: bool,
}

/// What the cast part does with `message`: the cast part after it and the
/// action.
pub open spec fn cast_widget_step(widget: CastWidget, message: Message, after: CastWidget, a: Action) -> bool {
    match message {
        Message::CastReceived(cast) => {
            &&& after.load_state == LoadState::Loaded
            &&& after.is_expanded == widget.is_expanded
            &&& after.casts@.len() == cast@.len()
            &&& forall|i: int| 0 <= i < cast@.len() ==> is_new_poster(#[trigger] after.casts@[i], i as usize, cast@[i])
            &&& a matches Action::Posters(actions) && actions@.len() == cast@.len() && forall|i: int|
                0 <= i < cast@.len() ==> #[trigger] actions@[i] == person_image_load(cast@[i])
        },
        Message::Cast(i, m) => {
            &&& a matches Action::Poster(x) && cast_poster_step(widget.casts@[i as int], m, after.casts@[i as int], x)
            &&& after.casts@.len() == widget.casts@.len()
            &&& forall|j: int| 0 <= j < widget.casts@.len() && j != i ==> #[trigger] after.casts@[j] == widget.casts@[j]
            &&& after.load_state == widget.load_state
            &&& after.is_expanded == widget.is_expanded
        },
        Message::Expand => a is Nothing && after == CastWidget { is_expanded: true, ..widget },
        Message::Shrink => a is Nothing && after == CastWidget { is_expanded: false, ..widget },
    }
}

impl CastWidget {
    /// The cast part, with the cast of the series to load.
    pub fn new(series_id: u32) -> (r: (Self, Action))
        ensures
            r.0.load_state == LoadState::Loading,
            r.0.casts@.len() == 0,
            !r.0.is_expanded,
            r.1 == Action::LoadCast(series_id),
    {
        (Self { load_state: LoadState::Loading, casts: Vec::new(), is_expanded: false }, Action::LoadCast(series_id))
    }

    pub fn update(&mut self, message: Message) -> (a: Action)
        requires
            message matches Message::Cast(i, _) ==> i < old(self).casts@.len(),
        ensures
            cast_widget_step(*old(self), message, *final(self), a),
    {
        match message {
            Message::CastReceived(cast) => {
                self.load_state = LoadState::Loaded;
                let ghost all = cast@;
                let mut posters: Vec<CastPoster> = Vec::new();
                let mut actions: Vec<CastAction> = Vec::new();
                let mut rest = cast;
                let count = rest.len();
                let mut k: usize = 0;
                while rest.len() > 0
                    invariant
                        k + rest@.len() == all.len(),
                        all.len() == count,
                        rest@ == all.subrange(k as int, all.len() as int),
                        posters@.len() == k,
                        actions@.len() == k,
                        forall|i: int| 0 <= i < k ==> is_new_poster(#[trigger] posters@[i], i as usize, all[i]),
                        forall|i: int| 0 <= i < k ==> #[trigger] actions@[i] == person_image_load(all[i]),
                    decreases rest@.len(),
                {
                    let person = rest.remove(0);
                    proof {
                        assert(person == all[k as int]);
                    }
                    let (poster, action) = CastPoster::new(k, person);
                    posters.push(poster);
                    actions.push(action);
                    proof {
                        assert(rest@ =~= all.subrange(k + 1, all.len() as int));
                    }
                    k = k + 1;
                }
                self.casts = posters;
                Action::Posters(actions)
            },
            Message::Cast(index, message) => {
                let mut posters: Vec<CastPoster> = Vec::new();
                std::mem::swap(&mut posters, &mut self.casts);
                let mut poster = posters.remove(index);
                let action = poster.update(message);
                posters.insert(index, poster);
                self.casts = posters;
                Action::Poster(action)
            },
            Message::Expand => {
                self.is_expanded = true;
                Action::Nothing
            },
            Message::Shrink => {
                self.is_expanded = false;
                Action::Nothing
            },
        }
    }

    /// How many posters are shown: all once expanded, else at most the first
    /// twenty.
    pub fn shown_count(&self) -> (n: usize)
        ensures
            n == (if self.is_expanded || self.casts@.len() <= INITIAL_CAST_NUMBER {
                self.casts@.len()
            } else {
                INITIAL_CAST_NUMBER as nat
            }),
    {
        if self.is_expanded || self.casts.len() <= INITIAL_CAST_NUMBER {
            self.casts.len()
        } else {
            INITIAL_CAST_NUMBER
        }
    }

    /// The button below the cast, when the cast is longer than what is first
    /// shown.
    pub fn expansion_widget(&self) -> (e: Option<Expansion>)
        ensures
            self.casts@.len() <= INITIAL_CAST_NUMBER ==> e is None,
            self.casts@.len() > INITIAL_CAST_NUMBER ==> e == Some(
                if self.is_expanded {
                    Expansion::ShowLess
                } else {
                    Expansion::ShowMore
                },
            ),
    {
        if self.casts.len() > INITIAL_CAST_NUMBER {
            if self.is_expanded {
                Some(Expansion::ShowLess)
            } else {
                Some(Expansion::ShowMore)
            }
        } else {
            None
        }
    }
}

/// The label of the expansion button.
pub fn expansion_label(e: Expansion) -> (s: &'static str)
    ensures
        s@ == match e {
            Expansion::ShowMore => "show more"@,
            Expansion::ShowLess => "show less"@,
        },
{
    proof {
        reveal_strlit("show more");
        reveal_strlit("show less");
    }
    match e {
        Expansion::ShowMore => "show more",
        Expansion::ShowLess => "show less",
    }
}

} // verus!
