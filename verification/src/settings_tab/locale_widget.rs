//! The locale settings: the country of the user, chosen by its name.

use vstd::prelude::*;

use crate::settings_config::{
    country_names, first_named, first_with_code, get_country_code_from_country_name,
    get_country_name_from_country_code, list_ends_at, names_before, no_country_named, no_country_with_code,
    LocaleSettings,
};

verus! {

#[derive(Debug)]
pub enum Message {
    CountrySelected(String),
}

/// The locale widget.
#[derive(Debug)]
pub struct Locale {
    /// The names the country selector offers.
    pub country_list: Vec<String>,
}

impl Locale {
    /// The widget, offering every country of the ISO 3166 list in its
    /// order.
    pub fn new() -> (l: Self)
        ensures
            exists|count: nat| list_ends_at(count) && l.country_list@.map_values(|n: String| n@) == names_before(count),
    {
        Self { country_list: country_names() }
    }

    /// Stores the code of the chosen country in `settings`. A name that is
    /// not in the country list is left out by `requires`.
    pub fn update(&mut self, message: Message, settings: &mut LocaleSettings)
        requires
            message matches Message::CountrySelected(name) ==> !no_country_named(name@),
        ensures
            final(self).country_list == old(self).country_list,
            message matches Message::CountrySelected(name) ==> exists|index: usize|
                #[trigger] first_named(name@, index, final(settings).country_code@),
    {
        match message {
            Message::CountrySelected(country_name) => {
                let found = get_country_code_from_country_name(country_name.as_str());
                match found {
                    Some(code) => {
                        let ghost index = choose|index: usize| #[trigger] first_named(country_name@, index, found->0@);
                        settings.country_code = code;
                        proof {
                            assert(first_named(country_name@, index, settings.country_code@));
                        }
                    },
                    None => {},
                }
            },
        }
    }

    /// The name of the country chosen in `settings`, shown in the selector.
    /// A code that is not in the country list is left out by `requires`.
    pub fn selected_country(settings: &LocaleSettings) -> (s: String)
        requires
            !no_country_with_code(settings.country_code@),
        ensures
            exists|index: usize| #[trigger] first_with_code(settings.country_code@, index, s@),
    {
        match get_country_name_from_country_code(settings.country_code.as_str()) {
            Some(name) => name,
            None => String::new(),
        }
    }
}

} // verus!
