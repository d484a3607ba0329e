//! The colour theme: named theme colours and the palette indexed by them.

use vstd::prelude::*;

verus! {

/// The number of theme colours.
pub const THEME_COLOR_COUNT: usize = 13;

/// A named colour of the theme.
#[derive(Clone, Copy, Debug, PartialEq, Eq, Structural)]
pub enum ThemeColor {
    // Absolute colors
    White,
    Invisible,
    // Semantic colors
    Body,
    BodyText,
    Primary,
    PrimaryHovered,
    PrimaryPressed,
    PrimaryDisabled,
    PrimaryText,
    // Misc UI colors
    Popup,
    Indicator,
    CardBorder,
    Overlay,
}

/// The theme colours in declaration order.
pub open spec fn declared_colors() -> Seq<ThemeColor> {
    seq![
        ThemeColor::White,
        ThemeColor::Invisible,
        ThemeColor::Body,
        ThemeColor::BodyText,
        ThemeColor::Primary,
        ThemeColor::PrimaryHovered,
        ThemeColor::PrimaryPressed,
        ThemeColor::PrimaryDisabled,
        ThemeColor::PrimaryText,
        ThemeColor::Popup,
        ThemeColor::Indicator,
        ThemeColor::CardBorder,
        ThemeColor::Overlay,
    ]
}

impl ThemeColor {
    /// The colour's position in the palette: its declaration order.
    pub open spec fn slot(self) -> int {
        match self {
            ThemeColor::White => 0,
            ThemeColor::Invisible => 1,
            ThemeColor::Body => 2,
            ThemeColor::BodyText => 3,
            ThemeColor::Primary => 4,
            ThemeColor::PrimaryHovered => 5,
            ThemeColor::PrimaryPressed => 6,
            ThemeColor::PrimaryDisabled => 7,
            ThemeColor::PrimaryText => 8,
            ThemeColor::Popup => 9,
            ThemeColor::Indicator => 10,
            ThemeColor::CardBorder => 11,
            ThemeColor::Overlay => 12,
        }
    }

    /// The colour's position in the palette.
    pub fn index(self) -> (i: usize)
        ensures
            i == self.slot(),
            i < THEME_COLOR_COUNT,
            declared_colors()[i as int] == self,
    {
        match self {
            ThemeColor::White => 0,
            ThemeColor::Invisible => 1,
            ThemeColor::Body => 2,
            ThemeColor::BodyText => 3,
            ThemeColor::Primary => 4,
            ThemeColor::PrimaryHovered => 5,
            ThemeColor::PrimaryPressed => 6,
            ThemeColor::PrimaryDisabled => 7,
            ThemeColor::PrimaryText => 8,
            ThemeColor::Popup => 9,
            ThemeColor::Indicator => 10,
            ThemeColor::CardBorder => 11,
            ThemeColor::Overlay => 12,
        }
    }

    /// The default theme colour.
    pub fn default_color() -> (c: ThemeColor)
        ensures
            c == ThemeColor::White,
    {
        ThemeColor::White
    }

    /// Bind this theme colour to the colour of component `C`.
    pub fn target<C>(self) -> (for_c: ThemeColorFor<C>)
        ensures
            for_c.0 == self,
    {
        ThemeColorFor(self, core::marker::PhantomData)
    }
}

/// A theme colour applied to the colour of component `C`.
pub struct ThemeColorFor<C>(pub ThemeColor, pub core::marker::PhantomData<C>);

/// A palette: one colour value for each theme colour.
pub struct ThemeColorList<T>(pub [T; 13]);

impl<T> ThemeColorList<T> {
    /// The palette entry of `color`.
    pub fn index(&self, color: ThemeColor) -> (value: &T)
        ensures
            *value == self.0@[color.slot()],
            forall|i: int| 0 <= i < THEME_COLOR_COUNT && declared_colors()[i] == color ==> *value == self.0@[i],
    {
        &self.0[color.index()]
    }
}

/// The palette entry of each theme colour is its position in declaration
/// order, and each position belongs to exactly that colour.
pub proof fn law_slot_is_declaration_position(c: ThemeColor)
    ensures
        declared_colors().len() == THEME_COLOR_COUNT,
        declared_colors()[c.slot()] == c,
        forall|i: int| 0 <= i < THEME_COLOR_COUNT ==> (#[trigger] declared_colors()[i]).slot() == i,
{
}

/// Every theme colour has its own palette entry.
pub proof fn law_each_color_has_its_own_entry(a: ThemeColor, b: ThemeColor)
    ensures
        0 <= a.slot() < THEME_COLOR_COUNT,
        a.slot() == b.slot() ==> a == b,
{
}

} // verus!
