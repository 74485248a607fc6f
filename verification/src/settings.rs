//! User preferences and the settings tab's state machine.
use vstd::prelude::*;

verus! {

/// Which characters mark decimals and thousands when numbers are shown.
#[derive(Debug, Clone, Copy, PartialEq, Eq, Structural)]
pub enum Separator {
    DotDecimalCommaThousand,
    CommaDecimalDotThousand,
}

impl Default for Separator {
    fn default() -> (s: Self)
        ensures
            s == Separator::DotDecimalCommaThousand,
    {
        Separator::DotDecimalCommaThousand
    }
}

/// The preferences that are saved across runs.
#[derive(Debug, Clone)]
pub struct Settings {
    pub default_tab: Option<String>,
    pub light_theme: Option<String>,
    pub dark_theme: Option<String>,
    pub separator: Option<Separator>,
}

impl Default for Settings {
    fn default() -> (s: Self)
        ensures
            s.default_tab is None,
            s.light_theme is None,
            s.dark_theme is None,
            s.separator is None,
    {
        Settings { default_tab: None, light_theme: None, dark_theme: None, separator: None }
    }
}

/// A change on the settings tab.
#[derive(Debug, Clone)]
pub enum SettingsMessage {
    DefaultTab(String),
    LightTheme(String),
    DarkTheme(String),
    NumberFormat(Separator),
}

} // verus!
