//! The user's settings that the widgets read and change, and the country
//! list the locale setting chooses from.

use vstd::prelude::*;

use crate::series_information::str_eq;

verus! {

/// How often, in days, each kind of cache is cleaned.
#[derive(Debug, Clone, Copy, PartialEq, Eq, Structural)]
pub struct CacheSettings {
    pub aired_cache_clean_frequency: u32,
    pub ended_cache_clean_frequency: u32,
    pub waiting_release_cache_clean_frequency: u32,
}

#[derive(Debug, Clone, Copy, PartialEq, Eq, Structural)]
pub struct NotificationSettings {
    /// Minutes before a release that the notification is sent.
    pub time_to_notify: u32,
    /// Whether a notification is sent when a newer release of the program
    /// is out.
    pub notify_when_outdated: bool,
}

/// The theme of the program.
#[derive(Debug, Clone, Copy, PartialEq, Eq, Structural)]
pub enum Theme {
    Light,
    Dark,
    System,
}

#[derive(Debug, Clone, Copy, PartialEq, Eq, Structural)]
pub struct AppearanceSettings {
    pub theme: Theme,
}

#[derive(Debug)]
pub struct LocaleSettings {
    /// The ISO 3166 alpha-2 code of the country of the user.
    pub country_code: String,
}

/// The settings of the program.
#[derive(Debug)]
pub struct Settings {
    pub appearance: AppearanceSettings,
    pub cache: CacheSettings,
    pub notifications: NotificationSettings,
    pub locale: LocaleSettings,
}

/// The country at `index` in the ISO 3166 list, as its English short name
/// and its alpha-2 code, or `None` past the end of the list.
pub uninterp spec fn iso_country(index: usize) -> Option<(Seq<char>, Seq<char>)>;

/// `rust_iso3166::ALL[index]`: the name and alpha-2 code of the country at
/// `index` in the list of the crate, named by `iso_country`.
#[verifier::external_body]
fn iso_country_at(index: usize) -> (r: Option<(String, String)>)
    ensures
        match r {
            Some((name, code)) => iso_country(index) == Some((name@, code@)),
            None => iso_country(index) is None,
        },
{
    match rust_iso3166::ALL.get(index) {
        Some(country) => Some((country.name.to_string(), country.alpha2.to_string())),
        None => None,
    }
}

/// `rust_iso3166::ALL.len()`: the number of countries in the list; the list
/// has a country at each position before it and none at it.
#[verifier::external_body]
fn iso_country_count() -> (n: usize)
    ensures
        forall|i: usize| i < n ==> #[trigger] iso_country(i) is Some,
        iso_country(n) is None,
{
    rust_iso3166::ALL.len()
}

/// The list is over at `count`: each country before it is there, none at it.
pub open spec fn list_ends_at(count: nat) -> bool {
    &&& count <= usize::MAX
    &&& forall|i: usize| i < count ==> #[trigger] iso_country(i) is Some
    &&& iso_country(count as usize) is None
}

/// The names of the countries before `count`.
pub open spec fn names_before(count: nat) -> Seq<Seq<char>>
    decreases count,
{
    if count == 0 {
        Seq::empty()
    } else {
        names_before((count - 1) as nat).push(
            match iso_country((count - 1) as usize) {
                Some(c) => c.0,
                None => Seq::empty(),
            },
        )
    }
}

/// The names of all the countries of the list, in its order (what the
/// country selector offers).
pub fn country_names() -> (r: Vec<String>)
    ensures
        exists|count: nat| list_ends_at(count) && r@.map_values(|n: String| n@) == names_before(count),
{
    let count = iso_country_count();
    let mut r: Vec<String> = Vec::new();
    let mut i: usize = 0;
    while i < count
        invariant
            i <= count,
            forall|j: usize| j < count ==> #[trigger] iso_country(j) is Some,
            iso_country(count) is None,
            r@.map_values(|n: String| n@) == names_before(i as nat),
        decreases count - i,
    {
        match iso_country_at(i) {
            Some((name, _)) => {
                r.push(name);
                proof {
                    assert(r@.map_values(|n: String| n@) =~= names_before(i as nat + 1));
                }
            },
            None => {
                proof {
                    assert(iso_country(i) is Some);
                }
            },
        }
        i = i + 1;
    }
    proof {
        assert(list_ends_at(count as nat));
    }
    r
}

/// The first country of the list named `name`, as its position and code.
pub open spec fn first_named(name: Seq<char>, index: usize, code: Seq<char>) -> bool {
    &&& iso_country(index) matches Some(c) && c.0 == name && c.1 == code
    &&& forall|j: usize| j < index ==> (#[trigger] iso_country(j) matches Some(c) && c.0 != name)
}

/// No country of the list is named `name`.
pub open spec fn no_country_named(name: Seq<char>) -> bool {
    exists|count: nat| list_ends_at(count) && forall|j: usize| j < count ==> (#[trigger] iso_country(j) matches Some(c) && c.0 != name)
}

/// The alpha-2 code of the first country of the list named `country_name`.
pub fn get_country_code_from_country_name(country_name: &str) -> (r: Option<String>)
    ensures
        r is Some ==> exists|index: usize| #[trigger] first_named(country_name@, index, r->0@),
        r is None ==> no_country_named(country_name@),
{
    let count = iso_country_count();
    let mut i: usize = 0;
    while i < count
        invariant
            i <= count,
            forall|j: usize| j < count ==> #[trigger] iso_country(j) is Some,
            iso_country(count) is None,
            forall|j: usize| j < i ==> (#[trigger] iso_country(j) matches Some(c) && c.0 != country_name@),
        decreases count - i,
    {
        match iso_country_at(i) {
            Some((name, code)) => {
                if str_eq(name.as_str(), country_name) {
                    proof {
                        assert(first_named(country_name@, i, code@));
                    }
                    let result = Some(code);
                    assert(first_named(country_name@, i, result->0@));
                    return result;
                }
            },
            None => {},
        }
        i = i + 1;
    }
    proof {
        assert(list_ends_at(count as nat));
    }
    None
}

/// The first country of the list with the alpha-2 code `code`, as its
/// position and name.
pub open spec fn first_with_code(code: Seq<char>, index: usize, name: Seq<char>) -> bool {
    &&& iso_country(index) matches Some(c) && c.1 == code && c.0 == name
    &&& forall|j: usize| j < index ==> (#[trigger] iso_country(j) matches Some(c) && c.1 != code)
}

/// No country of the list has the alpha-2 code `code`.
pub open spec fn no_country_with_code(code: Seq<char>) -> bool {
    exists|count: nat| list_ends_at(count) && forall|j: usize| j < count ==> (#[trigger] iso_country(j) matches Some(c) && c.1 != code)
}

/// The name of the first country of the list with the alpha-2 code
/// `country_code`.
pub fn get_country_name_from_country_code(country_code: &str) -> (r: Option<String>)
    ensures
        r is Some ==> exists|index: usize| #[trigger] first_with_code(country_code@, index, r->0@),
        r is None ==> no_country_with_code(country_code@),
{
    let count = iso_country_count();
    let mut i: usize = 0;
    while i < count
        invariant
            i <= count,
            forall|j: usize| j < count ==> #[trigger] iso_country(j) is Some,
            iso_country(count) is None,
            forall|j: usize| j < i ==> (#[trigger] iso_country(j) matches Some(c) && c.1 != country_code@),
        decreases count - i,
    {
        match iso_country_at(i) {
            Some((name, code)) => {
                if str_eq(code.as_str(), country_code) {
                    proof {
                        assert(first_with_code(country_code@, i, name@));
                    }
                    let result = Some(name);
                    assert(first_with_code(country_code@, i, result->0@));
                    return result;
                }
            },
            None => {},
        }
        i = i + 1;
    }
    proof {
        assert(list_ends_at(count as nat));
    }
    None
}

} // verus!
