use vstd::prelude::*;

use crate::scalar::Scalar32;

verus! {

/// Encoding of the binary32 number 0.0.
pub const COMPONENT_ZERO: u32 = 0x0000_0000u32;

/// Encoding of the binary32 number 1.0.
pub const COMPONENT_ONE: u32 = 0x3F80_0000u32;

/// A colour: red, green, blue and alpha, or hue, saturation, lightness and
/// alpha, each component a binary32 number.
#[derive(Clone, Copy, Debug)]
pub enum Color {
    Rgba(Scalar32, Scalar32, Scalar32, Scalar32),
    Hsla(Scalar32, Scalar32, Scalar32, Scalar32),
}

impl Color {
    /// Opaque black.
    pub open spec fn spec_black() -> Color {
        Color::Rgba(
            Scalar32 { bits: COMPONENT_ZERO },
            Scalar32 { bits: COMPONENT_ZERO },
            Scalar32 { bits: COMPONENT_ZERO },
            Scalar32 { bits: COMPONENT_ONE },
        )
    }

    pub fn black() -> (c: Color)
        ensures
            c == Color::spec_black(),
    {
        Color::Rgba(
            Scalar32::from_bits(COMPONENT_ZERO),
            Scalar32::from_bits(COMPONENT_ZERO),
            Scalar32::from_bits(COMPONENT_ZERO),
            Scalar32::from_bits(COMPONENT_ONE),
        )
    }
}

/// A colour that the environment defines, such as the colour of labels.
#[derive(Clone, Copy, Debug, PartialEq, Eq, Structural, Hash)]
pub enum EnvironmentColor {
    Blue,
    Green,
    Indigo,
    Orange,
    Pink,
    Purple,
    Red,
    Teal,
    Yellow,
    Gray,
    Gray2,
    Gray3,
    Gray4,
    Gray5,
    Gray6,
    Label,
    SecondaryLabel,
    TertiaryLabel,
    QuaternaryLabel,
    SystemFill,
    SecondarySystemFill,
    TertiarySystemFill,
    QuaternarySystemFill,
    PlaceholderText,
    SystemBackground,
    SecondarySystemBackground,
    TertiarySystemBackground,
    Separator,
    OpaqueSeparator,
    Link,
    DarkText,
    LightText,
    Accent,
}

/// A font size that the environment defines, such as the size of body text.
#[derive(Clone, Copy, Debug, PartialEq, Eq, Structural, Hash)]
pub enum EnvironmentFontSize {
    LargeTitle,
    Title,
    Title2,
    Title3,
    Headline,
    Body,
    Callout,
    Subhead,
    Footnote,
    Caption,
    Caption2,
}

/// The key under which the environment keeps a value.
#[derive(Clone, Copy, Debug, PartialEq, Eq, Structural, Hash)]
pub enum StateKey {
    Color(EnvironmentColor),
    FontSize(EnvironmentFontSize),
}

} // verus!
