//! The colour theme of the chat window and the names it is stored under.

use crate::text::same_text;
use vstd::prelude::*;

verus! {

/// The colour theme a user chose.
#[derive(Debug, Clone, Copy, PartialEq, Eq, Structural)]
pub enum Theme {
    Light,
    Dark,
    /// Whatever the system prefers.
    System,
}

impl Theme {
    /// The name under which the theme is kept in the browser's storage.
    pub open spec fn name(self) -> Seq<char> {
        match self {
            Theme::Light => "light"@,
            Theme::Dark => "dark"@,
            Theme::System => "system"@,
        }
    }

    /// The theme that a stored name stands for. Any name but `dark` and
    /// `light` stands for the system's preference.
    pub open spec fn named(name: Seq<char>) -> Theme {
        if name == "dark"@ {
            Theme::Dark
        } else if name == "light"@ {
            Theme::Light
        } else {
            Theme::System
        }
    }

    /// The theme that the dark-mode switch asks for when it reports
    /// `value`: dark for `true`, light for anything else.
    pub open spec fn toggled(value: Seq<char>) -> Theme {
        if value == "true"@ {
            Theme::Dark
        } else {
            Theme::Light
        }
    }

    /// The name under which the theme is kept in the browser's storage.
    pub fn as_str(&self) -> (name: &'static str)
        ensures
            name@ == self.name(),
    {
        match self {
            Theme::Light => "light",
            Theme::Dark => "dark",
            Theme::System => "system",
        }
    }

    /// Reads a theme back from its stored name.
    pub fn from_name(name: &str) -> (theme: Theme)
        ensures
            theme == Theme::named(name@),
    {
        if same_text(name, "dark") {
            Theme::Dark
        } else if same_text(name, "light") {
            Theme::Light
        } else {
            Theme::System
        }
    }

    /// The theme that the dark-mode switch asks for when it reports
    /// `value`.
    pub fn from_toggle(value: &str) -> (theme: Theme)
        ensures
            theme == Theme::toggled(value@),
    {
        if same_text(value, "true") {
            Theme::Dark
        } else {
            Theme::Light
        }
    }

    /// Whether the page is to be drawn dark, which is also whether the
    /// dark-mode switch shows as on.
    pub fn is_dark(&self) -> (dark: bool)
        ensures
            dark == (*self == Theme::Dark),
    {
        match self {
            Theme::Dark => true,
            _ => false,
        }
    }
}

/// A theme read back from the name it was stored under is the same theme.
pub proof fn law_theme_name_round_trip(theme: Theme)
    ensures
        Theme::named(theme.name()) == theme,
{
    reveal_strlit("light");
    reveal_strlit("dark");
    reveal_strlit("system");
    assert("light"@.len() != "dark"@.len());
    assert("system"@.len() != "dark"@.len());
    assert("system"@.len() != "light"@.len());
}

} // verus!
