//! The appearance settings: the theme of the program.

use vstd::prelude::*;

use crate::settings_config::{AppearanceSettings, Theme};

verus! {

#[derive(Debug, Clone, Copy, PartialEq, Eq, Structural)]
pub enum Message {
    ThemeSelected(Theme),
}

#[derive(Debug, Clone, Copy, PartialEq, Eq, Structural)]
pub struct Appearance;

/// The themes offered, in the order they are listed.
pub open spec fn all_themes() -> Seq<Theme> {
    seq![Theme::Light, Theme::Dark, Theme::System]
}

/// The name shown for a theme.
pub open spec fn theme_name(theme: Theme) -> Seq<char> {
    match theme {
        Theme::Light => "Light"@,
        Theme::Dark => "Dark"@,
        Theme::System => "System"@,
    }
}

impl Appearance {
    /// Stores the chosen theme in the settings.
    pub fn update(&mut self, message: Message, settings: &mut AppearanceSettings)
        ensures
            message matches Message::ThemeSelected(t) ==> final(settings).theme == t,
    {
        match message {
            Message::ThemeSelected(theme) => settings.theme = theme,
        }
    }

    /// The themes offered.
    pub fn themes() -> (r: Vec<Theme>)
        ensures
            r@ == all_themes(),
    {
        let mut r: Vec<Theme> = Vec::new();
        r.push(Theme::Light);
        r.push(Theme::Dark);
        r.push(Theme::System);
        proof {
            assert(r@ =~= all_themes());
        }
        r
    }

    /// The name shown for a theme.
    pub fn theme_label(theme: Theme) -> (s: &'static str)
        ensures
            s@ == theme_name(theme),
    {
        proof {
            reveal_strlit("Light");
            reveal_strlit("Dark");
            reveal_strlit("System");
        }
        match theme {
            Theme::Light => "Light",
            Theme::Dark => "Dark",
            Theme::System => "System",
        }
    }
}

} // verus!
