use vstd::prelude::*;

verus! {

/// The concrete light or dark look applied to the interface.
#[derive(Clone, Copy, Debug, PartialEq, Eq, Structural)]
pub enum Theme {
    Light,
    Dark,
}

/// The user's chosen mode: follow the operating system, or an explicit theme.
#[derive(Clone, Copy, Debug, PartialEq, Eq, Structural)]
pub enum ThemePreference {
    System,
    Light,
    Dark,
}

/// The mode requested from the window manager for native window chrome.
#[derive(Clone, Copy, Debug, PartialEq, Eq, Structural)]
pub enum SystemTheme {
    SystemDefault,
    Light,
    Dark,
}

/// The operating system's native color-scheme setting.
#[derive(Clone, Copy, Debug, PartialEq, Eq, Structural)]
pub enum ColorScheme {
    NoPreference,
    PreferLight,
    PreferDark,
}

/// The theme used when the user follows the system and the system has not said.
pub const FALLBACK_THEME: Theme = Theme::Light;

pub open spec fn system_theme_of(preference: ThemePreference) -> SystemTheme {
    match preference {
        ThemePreference::System => SystemTheme::SystemDefault,
        ThemePreference::Light => SystemTheme::Light,
        ThemePreference::Dark => SystemTheme::Dark,
    }
}

/// The window-manager mode that carries a preference as it stands.
pub fn to_system_theme(preference: ThemePreference) -> (r: SystemTheme)
    ensures
        r == system_theme_of(preference),
{
    match preference {
        ThemePreference::System => SystemTheme::SystemDefault,
        ThemePreference::Dark => SystemTheme::Dark,
        ThemePreference::Light => SystemTheme::Light,
    }
}

pub open spec fn theme_of_scheme(scheme: ColorScheme) -> Option<Theme> {
    match scheme {
        ColorScheme::NoPreference => None,
        ColorScheme::PreferLight => Some(Theme::Light),
        ColorScheme::PreferDark => Some(Theme::Dark),
    }
}

/// The theme the operating system asks for; `None` where it states no preference,
/// so that the three-valued signal reaches the resolver intact.
pub fn to_theme(scheme: ColorScheme) -> (r: Option<Theme>)
    ensures
        r == theme_of_scheme(scheme),
{
    match scheme {
        ColorScheme::NoPreference => None,
        ColorScheme::PreferLight => Some(Theme::Light),
        ColorScheme::PreferDark => Some(Theme::Dark),
    }
}

/// The effective theme: an explicit preference wins; following the system takes the
/// system's theme where one is known, and the fallback otherwise.
pub open spec fn resolved(
    preference: ThemePreference,
    os_theme: Option<Theme>,
    fallback: Theme,
) -> Theme {
    match preference {
        ThemePreference::Light => Theme::Light,
        ThemePreference::Dark => Theme::Dark,
        ThemePreference::System => match os_theme {
            Some(t) => t,
            None => fallback,
        },
    }
}

pub fn resolve(preference: ThemePreference, os_theme: Option<Theme>, fallback: Theme) -> (r: Theme)
    ensures
        r == resolved(preference, os_theme, fallback),
        preference == ThemePreference::Light ==> r == Theme::Light,
        preference == ThemePreference::Dark ==> r == Theme::Dark,
        preference == ThemePreference::System && os_theme is Some ==> r == os_theme->0,
        preference == ThemePreference::System && os_theme is None ==> r == fallback,
{
    match preference {
        ThemePreference::Light => Theme::Light,
        ThemePreference::Dark => Theme::Dark,
        ThemePreference::System => match os_theme {
            Some(t) => t,
            None => fallback,
        },
    }
}

} // verus!
