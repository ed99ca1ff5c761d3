//! The two colour schemes of the window.

use vstd::prelude::*;

verus! {

/// The colour scheme of the window.
#[derive(Debug, Clone, Copy, PartialEq, Eq, Structural)]
pub enum Theme {
    Light,
    Dark,
}

/// The colour in which a button writes its label.
#[derive(Debug, Clone, Copy, PartialEq, Eq, Structural)]
pub enum TextColor {
    White,
    Black,
}

impl Theme {
    /// The other theme.
    pub open spec fn toggled(self) -> Theme {
        match self {
            Theme::Light => Theme::Dark,
            Theme::Dark => Theme::Light,
        }
    }

    /// The label colour of buttons under this theme.
    pub open spec fn label_color(self) -> TextColor {
        match self {
            Theme::Light => TextColor::White,
            Theme::Dark => TextColor::Black,
        }
    }

    /// Flips between light and dark.
    pub fn toggle(self) -> (flipped: Theme)
        ensures
            flipped == self.toggled(),
            flipped != self,
    {
        match self {
            Theme::Light => Theme::Dark,
            Theme::Dark => Theme::Light,
        }
    }

    /// The colour of button labels: white under the light theme, black under
    /// the dark one.
    pub fn button_text_color(self) -> (color: TextColor)
        ensures
            color == self.label_color(),
    {
        match self {
            Theme::Light => TextColor::White,
            Theme::Dark => TextColor::Black,
        }
    }
}

} // verus!
