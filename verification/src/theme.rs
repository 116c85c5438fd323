//! The themes of the interface and the menu slots that show them.
use vstd::prelude::*;

verus! {

/// A colour theme of the interface.
#[derive(Clone, Copy, Debug, PartialEq, Eq, Structural)]
pub enum AppTheme {
    Default,
    Github,
    Dark,
    Light,
}

/// The key under which a theme is stored in the preferences.
pub open spec fn theme_key(theme: AppTheme) -> Seq<char> {
    match theme {
        AppTheme::Default => "default"@,
        AppTheme::Github => "github"@,
        AppTheme::Dark => "dark"@,
        AppTheme::Light => "light"@,
    }
}

/// The label under which a theme is offered.
pub open spec fn theme_label(theme: AppTheme) -> Seq<char> {
    match theme {
        AppTheme::Default => "Default"@,
        AppTheme::Github => "GitHub"@,
        AppTheme::Dark => "Dark"@,
        AppTheme::Light => "Light"@,
    }
}

/// The theme stored under `key`, if any.
pub open spec fn theme_for_key(key: Seq<char>) -> Option<AppTheme> {
    if key == "default"@ {
        Some(AppTheme::Default)
    } else if key == "github"@ {
        Some(AppTheme::Github)
    } else if key == "dark"@ {
        Some(AppTheme::Dark)
    } else if key == "light"@ {
        Some(AppTheme::Light)
    } else {
        None
    }
}

/// The menu item that selects a theme.
#[derive(Clone, Copy, Debug, PartialEq, Eq, Structural)]
pub enum ThemeMenuSlot {
    Default,
    Github,
    Dark,
    Light,
}

/// The theme that a menu slot selects.
pub open spec fn slot_theme(slot: ThemeMenuSlot) -> AppTheme {
    match slot {
        ThemeMenuSlot::Default => AppTheme::Default,
        ThemeMenuSlot::Github => AppTheme::Github,
        ThemeMenuSlot::Dark => AppTheme::Dark,
        ThemeMenuSlot::Light => AppTheme::Light,
    }
}

/// The menu slot of a theme.
pub open spec fn theme_slot(theme: AppTheme) -> ThemeMenuSlot {
    match theme {
        AppTheme::Default => ThemeMenuSlot::Default,
        AppTheme::Github => ThemeMenuSlot::Github,
        AppTheme::Dark => ThemeMenuSlot::Dark,
        AppTheme::Light => ThemeMenuSlot::Light,
    }
}

/// An sRGB colour.
pub type Rgb = (u8, u8, u8);

/// The background, text and secondary-text colours of the status footer in a theme.
pub open spec fn footer_colors(theme: AppTheme) -> (Rgb, Rgb, Rgb) {
    match theme {
        AppTheme::Default => ((255, 255, 255), (43, 36, 29), (111, 98, 88)),
        AppTheme::Github => ((246, 248, 250), (31, 35, 40), (87, 96, 106)),
        AppTheme::Dark => ((13, 17, 23), (230, 237, 243), (139, 148, 158)),
        AppTheme::Light => ((238, 243, 248), (32, 48, 65), (93, 114, 136)),
    }
}

impl AppTheme {
    /// Every theme, in menu order.
    pub fn all() -> (r: [AppTheme; 4])
        ensures
            r@ == seq![AppTheme::Default, AppTheme::Github, AppTheme::Dark, AppTheme::Light],
    {
        [AppTheme::Default, AppTheme::Github, AppTheme::Dark, AppTheme::Light]
    }

    /// The key under which the theme is stored.
    pub fn key(self) -> (r: &'static str)
        ensures
            r@ == theme_key(self),
    {
        match self {
            AppTheme::Default => "default",
            AppTheme::Github => "github",
            AppTheme::Dark => "dark",
            AppTheme::Light => "light",
        }
    }

    /// The label under which the theme is offered.
    pub fn label(self) -> (r: &'static str)
        ensures
            r@ == theme_label(self),
    {
        match self {
            AppTheme::Default => "Default",
            AppTheme::Github => "GitHub",
            AppTheme::Dark => "Dark",
            AppTheme::Light => "Light",
        }
    }

    /// The theme stored under `value`, if any.
    pub fn from_key(value: &str) -> (r: Option<Self>)
        ensures
            r == theme_for_key(value@),
    {
        if crate::text::str_eq(value, "default") {
            Some(AppTheme::Default)
        } else if crate::text::str_eq(value, "github") {
            Some(AppTheme::Github)
        } else if crate::text::str_eq(value, "dark") {
            Some(AppTheme::Dark)
        } else if crate::text::str_eq(value, "light") {
            Some(AppTheme::Light)
        } else {
            None
        }
    }
}

/// The theme that a menu slot selects.
pub fn theme_for_slot(slot: ThemeMenuSlot) -> (r: AppTheme)
    ensures
        r == slot_theme(slot),
{
    match slot {
        ThemeMenuSlot::Default => AppTheme::Default,
        ThemeMenuSlot::Github => AppTheme::Github,
        ThemeMenuSlot::Dark => AppTheme::Dark,
        ThemeMenuSlot::Light => AppTheme::Light,
    }
}

/// The menu slot of a theme.
pub fn slot_for_theme(theme: AppTheme) -> (r: ThemeMenuSlot)
    ensures
        r == theme_slot(theme),
{
    match theme {
        AppTheme::Default => ThemeMenuSlot::Default,
        AppTheme::Github => ThemeMenuSlot::Github,
        AppTheme::Dark => ThemeMenuSlot::Dark,
        AppTheme::Light => ThemeMenuSlot::Light,
    }
}

/// The background, text and secondary-text colours of the status footer in `theme`.
pub fn footer_theme_colors(theme: AppTheme) -> (r: (Rgb, Rgb, Rgb))
    ensures
        r == footer_colors(theme),
{
    match theme {
        AppTheme::Default => ((255, 255, 255), (43, 36, 29), (111, 98, 88)),
        AppTheme::Github => ((246, 248, 250), (31, 35, 40), (87, 96, 106)),
        AppTheme::Dark => ((13, 17, 23), (230, 237, 243), (139, 148, 158)),
        AppTheme::Light => ((238, 243, 248), (32, 48, 65), (93, 114, 136)),
    }
}

/// The preference under which the selected theme is stored.
pub const SELECTED_THEME_KEY: &'static str = "selectedTheme";

/// The theme to start with when the preference holds `stored`: the theme stored under that
/// key, or the default theme where nothing or an unknown key is stored.
pub open spec fn stored_theme(stored: Option<Seq<char>>) -> AppTheme {
    match stored {
        Some(v) => match theme_for_key(v) {
            Some(t) => t,
            None => AppTheme::Default,
        },
        None => AppTheme::Default,
    }
}

/// The theme to start with, from the stored preference `stored`.
pub fn load_selected_theme(stored: Option<&str>) -> (r: AppTheme)
    ensures
        r == stored_theme(match stored {
            Some(v) => Some(v@),
            None => None,
        }),
{
    match stored {
        Some(v) => match AppTheme::from_key(v) {
            Some(t) => t,
            None => AppTheme::Default,
        },
        None => AppTheme::Default,
    }
}

/// A stored theme key reads back as the theme it was stored for, and no two themes share a key.
pub proof fn law_theme_key_round_trip(theme: AppTheme, other: AppTheme)
    ensures
        theme_for_key(theme_key(theme)) == Some(theme),
        theme_key(theme) == theme_key(other) ==> theme == other,
{
    reveal_strlit("default");
    reveal_strlit("github");
    reveal_strlit("dark");
    reveal_strlit("light");
    assert("default"@.len() == 7 && "github"@.len() == 6 && "dark"@.len() == 4 && "light"@.len() == 5);
}

/// A theme saved as the preference is the theme the next start loads.
pub proof fn law_saved_theme_loads_back(theme: AppTheme)
    ensures
        stored_theme(Some(theme_key(theme))) == theme,
{
    law_theme_key_round_trip(theme, theme);
}

/// Each theme has its own menu slot, and the slot selects that theme.
pub proof fn law_theme_slot_bijection(theme: AppTheme, slot: ThemeMenuSlot)
    ensures
        slot_theme(theme_slot(theme)) == theme,
        theme_slot(slot_theme(slot)) == slot,
{
}

} // verus!
