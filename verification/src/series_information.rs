//! The information about a series that the tracker shows, and the texts
//! derived from it on a series page.

use vstd::prelude::*;

use crate::helpers::{decimal, genre_separator, genres_with_pipes, join, push_decimal, string_views};

verus! {

/// The network a series airs on.
#[derive(Debug, Clone)]
pub struct Network {
    pub name: String,
    pub country_name: String,
}

/// The web channel a series streams on.
#[derive(Debug, Clone)]
pub struct WebChannel {
    pub name: String,
}

/// The main information about a series, as the series database gives it.
#[derive(Debug, Clone)]
pub struct SeriesMainInformation {
    pub id: u32,
    pub name: String,
    pub status: String,
    /// The type of the show (scripted, reality, animation, ...), when known.
    pub kind: Option<String>,
    pub genres: Vec<String>,
    pub average_runtime: Option<u32>,
    pub language: Option<String>,
    pub premiered: Option<String>,
    pub ended: Option<String>,
    pub summary: Option<String>,
    pub network: Option<Network>,
    pub web_channel: Option<WebChannel>,
    /// Where the medium-sized poster of the series can be loaded from.
    pub image: Option<String>,
}

/// A copy of the strings.
pub fn duplicate_strings(v: &Vec<String>) -> (r: Vec<String>)
    ensures
        r@ == v@,
{
    let mut r: Vec<String> = Vec::new();
    let mut i: usize = 0;
    while i < v.len()
        invariant
            i <= v@.len(),
            r@ == v@.take(i as int),
        decreases v@.len() - i,
    {
        r.push(v[i].clone());
        proof {
            assert(r@ =~= v@.take(i + 1));
        }
        i = i + 1;
    }
    proof {
        assert(v@.take(i as int) =~= v@);
    }
    r
}

/// A copy of the optional string.
pub fn duplicate_option(o: &Option<String>) -> (r: Option<String>)
    ensures
        r == *o,
{
    match o {
        Some(s) => Some(s.clone()),
        None => None,
    }
}

/// Whether `a` holds the same information as `b`.
pub open spec fn same_information(a: SeriesMainInformation, b: SeriesMainInformation) -> bool {
    &&& a.id == b.id
    &&& a.name == b.name
    &&& a.status == b.status
    &&& a.kind == b.kind
    &&& a.genres@ == b.genres@
    &&& a.average_runtime == b.average_runtime
    &&& a.language == b.language
    &&& a.premiered == b.premiered
    &&& a.ended == b.ended
    &&& a.summary == b.summary
    &&& a.network == b.network
    &&& a.web_channel == b.web_channel
    &&& a.image == b.image
}

impl SeriesMainInformation {
    /// A copy of the information; the list of genres is a copy holding the
    /// same names.
    pub fn duplicate(&self) -> (r: Self)
        ensures
            same_information(r, *self),
    {
        SeriesMainInformation {
            id: self.id,
            name: self.name.clone(),
            status: self.status.clone(),
            kind: duplicate_option(&self.kind),
            genres: duplicate_strings(&self.genres),
            average_runtime: self.average_runtime,
            language: duplicate_option(&self.language),
            premiered: duplicate_option(&self.premiered),
            ended: duplicate_option(&self.ended),
            summary: duplicate_option(&self.summary),
            network: match &self.network {
                Some(n) => Some(Network { name: n.name.clone(), country_name: n.country_name.clone() }),
                None => None,
            },
            web_channel: match &self.web_channel {
                Some(w) => Some(WebChannel { name: w.name.clone() }),
                None => None,
            },
            image: duplicate_option(&self.image),
        }
    }
}

/// Whether `a` and `b` hold the same characters.
pub fn str_eq(a: &str, b: &str) -> (r: bool)
    ensures
        r == (a@ == b@),
{
    let n = a.unicode_len();
    if n != b.unicode_len() {
        return false;
    }
    let mut i: usize = 0;
    while i < n
        invariant
            i <= n,
            n == a@.len(),
            n == b@.len(),
            forall|j: int| 0 <= j < i ==> a@[j] == b@[j],
        decreases n - i,
    {
        if a.get_char(i) != b.get_char(i) {
            return false;
        }
        i = i + 1;
    }
    proof {
        assert(a@ =~= b@);
    }
    true
}

/// The state a series is in.
#[derive(Debug, Clone, Copy, PartialEq, Eq, Structural)]
pub enum SeriesStatus {
    Running,
    Ended,
    ToBeDetermined,
    InDevelopment,
    Other,
}

/// The status texts the series database uses.
pub open spec fn running_text() -> Seq<char> {
    seq!['R', 'u', 'n', 'n', 'i', 'n', 'g']
}

pub open spec fn ended_text() -> Seq<char> {
    seq!['E', 'n', 'd', 'e', 'd']
}

pub open spec fn to_be_determined_text() -> Seq<char> {
    seq!['T', 'o', ' ', 'B', 'e', ' ', 'D', 'e', 't', 'e', 'r', 'm', 'i', 'n', 'e', 'd']
}

pub open spec fn in_development_text() -> Seq<char> {
    seq!['I', 'n', ' ', 'D', 'e', 'v', 'e', 'l', 'o', 'p', 'm', 'e', 'n', 't']
}

/// The status a status text stands for.
pub open spec fn status_of(status: Seq<char>) -> SeriesStatus {
    if status == running_text() {
        SeriesStatus::Running
    } else if status == ended_text() {
        SeriesStatus::Ended
    } else if status == to_be_determined_text() {
        SeriesStatus::ToBeDetermined
    } else if status == in_development_text() {
        SeriesStatus::InDevelopment
    } else {
        SeriesStatus::Other
    }
}

impl SeriesStatus {
    pub fn new(series_info: &SeriesMainInformation) -> (s: Self)
        ensures
            s == status_of(series_info.status@),
    {
        proof {
            reveal_strlit("Running");
            reveal_strlit("Ended");
            reveal_strlit("To Be Determined");
            reveal_strlit("In Development");
            assert("Running"@ =~= running_text());
            assert("Ended"@ =~= ended_text());
            assert("To Be Determined"@ =~= to_be_determined_text());
            assert("In Development"@ =~= in_development_text());
        }
        let status = series_info.status.as_str();
        if str_eq(status, "Running") {
            Self::Running
        } else if str_eq(status, "Ended") {
            Self::Ended
        } else if str_eq(status, "To Be Determined") {
            Self::ToBeDetermined
        } else if str_eq(status, "In Development") {
            Self::InDevelopment
        } else {
            Self::Other
        }
    }
}

/// The text shown for a missing value.
pub open spec fn unavailable_text() -> Seq<char> {
    seq!['u', 'n', 'a', 'v', 'a', 'i', 'l', 'a', 'b', 'l', 'e']
}

/// The text of an optional value: the value, or `unavailable`.
pub open spec fn optional_text(value: Option<String>) -> Seq<char> {
    match value {
        Some(v) => v@,
        None => unavailable_text(),
    }
}

/// The status shown on a series page.
pub open spec fn status_display(series_info: SeriesMainInformation) -> Seq<char> {
    match status_of(series_info.status@) {
        SeriesStatus::Running => running_text(),
        SeriesStatus::Ended => ended_text(),
        SeriesStatus::ToBeDetermined => to_be_determined_text(),
        SeriesStatus::InDevelopment => in_development_text(),
        SeriesStatus::Other => series_info.status@,
    }
}

fn optional_string_text(value: &Option<String>) -> (s: String)
    ensures
        s@ == optional_text(*value),
{
    match value {
        Some(v) => v.clone(),
        None => {
            proof {
                reveal_strlit("unavailable");
            }
            String::from_str("unavailable")
        },
    }
}

/// The text of the status of a series.
pub fn status_widget(series_info: &SeriesMainInformation) -> (s: String)
    ensures
        s@ == status_display(*series_info),
{
    proof {
        reveal_strlit("Running");
        reveal_strlit("Ended");
        reveal_strlit("To Be Determined");
        reveal_strlit("In Development");
    }
    match SeriesStatus::new(series_info) {
        SeriesStatus::Running => String::from_str("Running"),
        SeriesStatus::Ended => String::from_str("Ended"),
        SeriesStatus::ToBeDetermined => String::from_str("To Be Determined"),
        SeriesStatus::InDevelopment => String::from_str("In Development"),
        SeriesStatus::Other => series_info.status.clone(),
    }
}

/// The average runtime shown on a series page: `N mins`, or `unavailable`.
pub open spec fn runtime_display(average_runtime: Option<u32>) -> Seq<char> {
    match average_runtime {
        Some(r) => decimal(r as nat) + seq![' ', 'm', 'i', 'n', 's'],
        None => unavailable_text(),
    }
}

/// The text of the average runtime of a series.
pub fn average_runtime_widget(series_info: &SeriesMainInformation) -> (s: String)
    ensures
        s@ == runtime_display(series_info.average_runtime),
{
    proof {
        reveal_strlit(" mins");
        reveal_strlit("unavailable");
    }
    match series_info.average_runtime {
        Some(average_runtime) => {
            let mut s = String::new();
            push_decimal(&mut s, average_runtime);
            s.append(" mins");
            proof {
                assert(s@ =~= runtime_display(series_info.average_runtime));
            }
            s
        },
        None => String::from_str("unavailable"),
    }
}

/// The text of the genres of a series, when it has any.
pub fn genres_widget(series_info: &SeriesMainInformation) -> (s: Option<String>)
    ensures
        series_info.genres@.len() == 0 ==> s is None,
        series_info.genres@.len() > 0 ==> (s matches Some(t)
            && t@ == join(string_views(series_info.genres@), genre_separator())),
{
    if series_info.genres.len() == 0 {
        None
    } else {
        Some(genres_with_pipes(series_info.genres.as_slice()))
    }
}

/// The type of a series, shown only when it is known.
pub fn series_type_widget(series_info: &SeriesMainInformation) -> (s: Option<String>)
    ensures
        s == series_info.kind,
{
    duplicate_option(&series_info.kind)
}

/// The language of a series, or `unavailable`.
pub fn language_widget(series_info: &SeriesMainInformation) -> (s: String)
    ensures
        s@ == optional_text(series_info.language),
{
    optional_string_text(&series_info.language)
}

/// The premiere date of a series, or `unavailable`.
pub fn premiered_widget(series_info: &SeriesMainInformation) -> (s: String)
    ensures
        s@ == optional_text(series_info.premiered),
{
    optional_string_text(&series_info.premiered)
}

/// The end date of a series, shown only for a series that has ended.
pub fn ended_widget(series_info: &SeriesMainInformation) -> (s: Option<String>)
    ensures
        status_of(series_info.status@) != SeriesStatus::Ended ==> s is None,
        status_of(series_info.status@) == SeriesStatus::Ended ==> (s matches Some(t)
            && t@ == optional_text(series_info.ended)),
{
    match SeriesStatus::new(series_info) {
        SeriesStatus::Ended => Some(optional_string_text(&series_info.ended)),
        _ => None,
    }
}

/// The network of a series as `name (country)`, when it has one.
pub fn network_widget(series_info: &SeriesMainInformation) -> (s: Option<String>)
    ensures
        series_info.network is None ==> s is None,
        series_info.network matches Some(n) ==> (s matches Some(t)
            && t@ == n.name@ + seq![' ', '('] + n.country_name@ + seq![')']),
{
    match &series_info.network {
        Some(network) => {
            proof {
                reveal_strlit(" (");
                reveal_strlit(")");
            }
            let mut s = network.name.clone();
            s.append(" (");
            s.append(network.country_name.as_str());
            s.append(")");
            Some(s)
        },
        None => None,
    }
}

/// The web channel of a series, when it has one.
pub fn webchannel_widget(series_info: &SeriesMainInformation) -> (s: Option<String>)
    ensures
        series_info.web_channel is None ==> s is None,
        series_info.web_channel matches Some(w) ==> (s matches Some(t) && t@ == w.name@),
{
    match &series_info.web_channel {
        Some(web_channel) => Some(web_channel.name.clone()),
        None => None,
    }
}

/// The stars drawn for a rating out of ten: full stars for the whole part,
/// one half star when there is a fractional part, and empty stars for the
/// rest.
pub open spec fn rating_star_counts(whole: nat, has_fraction: bool) -> (nat, bool, nat) {
    if has_fraction {
        (whole, true, (10 - whole - 1) as nat)
    } else {
        (whole, false, (10 - whole) as nat)
    }
}

/// The stars of a rating out of ten, given the whole part of the average
/// rating and whether it has a fractional part: the number of full stars,
/// whether a half star follows, and the number of empty stars.
pub fn rating_widget(whole_rating: u8, has_fraction: bool) -> (r: (u8, bool, u8))
    requires
        whole_rating <= 10,
        has_fraction ==> whole_rating < 10,
    ensures
        (r.0 as nat, r.1, r.2 as nat) == rating_star_counts(whole_rating as nat, has_fraction),
        r.0 + (if r.1 { 1int } else { 0int }) + r.2 == 10,
{
    let total_rating: u8 = 10;
    let mut missing_rating = total_rating - whole_rating;
    if has_fraction {
        missing_rating = missing_rating - 1;
    }
    (whole_rating, has_fraction, missing_rating)
}


/// The plain text that `html2text` renders from `html` wrapped to `width`
/// columns, or `None` when it reports an error.
pub uninterp spec fn html_text(html: Seq<char>, width: nat) -> Option<Seq<char>>;

/// `html2text::from_read`: renders the HTML of `html` as plain text wrapped
/// to `width` columns. Its result is a function of the two arguments; an
/// error is turned into `None`.
#[verifier::external_body]
fn html_to_text(html: &str, width: usize) -> (r: Option<String>)
    ensures
        r is None ==> html_text(html@, width as nat) is None,
        r matches Some(t) ==> html_text(html@, width as nat) == Some(t@),
{
    html2text::from_read(html.as_bytes(), width).ok()
}

/// The width, in columns, the summary of a series is wrapped to.
pub open spec fn summary_width() -> nat {
    1000
}

/// The summary text of a series from its HTML summary and the rendering of
/// it: the rendered text, or the HTML itself when the rendering failed.
pub open spec fn summary_display(summary: Seq<char>, rendered: Option<Seq<char>>) -> Seq<char> {
    match rendered {
        Some(text) => text,
        None => summary,
    }
}

/// Chooses the summary text from the HTML summary and its rendering.
pub fn summary_text_from_rendering(summary: &String, rendered: Option<String>) -> (s: String)
    ensures
        s@ == summary_display(summary@, match rendered { Some(t) => Some(t@), None => None }),
{
    match rendered {
        Some(text) => text,
        None => summary.clone(),
    }
}

/// The summary of a series as plain text, empty when it has none.
pub fn summary_widget(series_info: &SeriesMainInformation) -> (s: String)
    ensures
        series_info.summary is None ==> s@ == Seq::<char>::empty(),
        series_info.summary matches Some(summary) ==> s@ == summary_display(
            summary@,
            html_text(summary@, summary_width()),
        ),
{
    match &series_info.summary {
        Some(summary) => {
            let rendered = html_to_text(summary.as_str(), 1000);
            summary_text_from_rendering(summary, rendered)
        },
        None => String::new(),
    }
}

} // verus!
