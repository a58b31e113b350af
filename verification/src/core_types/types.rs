use vstd::prelude::*;
use crate::text::{chars_eq, to_chars, to_lowercase, unicode_lower};

verus! {

#[derive(Debug, Clone, Copy, PartialEq, Eq, Hash, Structural)]
pub enum Align {
    Left,
    Right,
    Center,
    RelativeLeft,
    RelativeRight,
}

#[derive(Debug, Clone, Copy, PartialEq, Eq, Hash, Structural)]
pub enum Orientation {
    Horizontal,
    Vertical,
}

#[derive(Debug, Clone, Copy, PartialEq, Eq, Hash, Structural)]
pub enum Gravity {
    NorthWest,
    North,
    NorthEast,
    West,
    Center,
    East,
    SouthWest,
    South,
    SouthEast,
    Static,
}

impl Gravity {
    /// The X11 `win_gravity` code.
    pub open spec fn spec_x11(self) -> u32 {
        match self {
            Gravity::NorthWest => 1,
            Gravity::North => 2,
            Gravity::NorthEast => 3,
            Gravity::West => 4,
            Gravity::Center => 5,
            Gravity::East => 6,
            Gravity::SouthWest => 7,
            Gravity::South => 8,
            Gravity::SouthEast => 9,
            Gravity::Static => 10,
        }
    }

    pub fn to_x11(&self) -> (r: u32)
        ensures
            r == self.spec_x11(),
    {
        match self {
            Gravity::NorthWest => 1,
            Gravity::North => 2,
            Gravity::NorthEast => 3,
            Gravity::West => 4,
            Gravity::Center => 5,
            Gravity::East => 6,
            Gravity::SouthWest => 7,
            Gravity::South => 8,
            Gravity::SouthEast => 9,
            Gravity::Static => 10,
        }
    }
}

/// Distinct gravities have distinct X11 codes, all in `1..=10`.
pub proof fn lemma_gravity_codes_distinct(a: Gravity, b: Gravity)
    ensures
        1 <= a.spec_x11() <= 10,
        a.spec_x11() == b.spec_x11() ==> a == b,
{
}

#[derive(Debug, Clone, Copy, PartialEq, Eq, Hash, Structural)]
pub enum TextureType {
    Flat,
    Raised,
    Sunken,
    Grooved,
    Bevel1,
    Bevel2,
    Mica,
    Solid,
    Gradient,
    Pixmap,
    ParentRelative,
    Transparent,
}

/// The texture type that a lowercase keyword names.
pub open spec fn texture_keyword(s: Seq<char>) -> Option<TextureType> {
    if s == "flat"@ {
        Some(TextureType::Flat)
    } else if s == "raised"@ {
        Some(TextureType::Raised)
    } else if s == "sunken"@ {
        Some(TextureType::Sunken)
    } else if s == "grooved"@ {
        Some(TextureType::Grooved)
    } else if s == "bevel1"@ {
        Some(TextureType::Bevel1)
    } else if s == "bevel2"@ {
        Some(TextureType::Bevel2)
    } else if s == "mica"@ {
        Some(TextureType::Mica)
    } else if s == "solid"@ {
        Some(TextureType::Solid)
    } else if s == "gradient"@ {
        Some(TextureType::Gradient)
    } else if s == "pixmap"@ {
        Some(TextureType::Pixmap)
    } else if s == "parentrelative"@ {
        Some(TextureType::ParentRelative)
    } else if s == "transparent"@ {
        Some(TextureType::Transparent)
    } else {
        None
    }
}

pub fn texture_keyword_exec(v: &Vec<char>) -> (r: Option<TextureType>)
    ensures
        r == texture_keyword(v@),
{
    if chars_eq(v, "flat") {
        Some(TextureType::Flat)
    } else if chars_eq(v, "raised") {
        Some(TextureType::Raised)
    } else if chars_eq(v, "sunken") {
        Some(TextureType::Sunken)
    } else if chars_eq(v, "grooved") {
        Some(TextureType::Grooved)
    } else if chars_eq(v, "bevel1") {
        Some(TextureType::Bevel1)
    } else if chars_eq(v, "bevel2") {
        Some(TextureType::Bevel2)
    } else if chars_eq(v, "mica") {
        Some(TextureType::Mica)
    } else if chars_eq(v, "solid") {
        Some(TextureType::Solid)
    } else if chars_eq(v, "gradient") {
        Some(TextureType::Gradient)
    } else if chars_eq(v, "pixmap") {
        Some(TextureType::Pixmap)
    } else if chars_eq(v, "parentrelative") {
        Some(TextureType::ParentRelative)
    } else if chars_eq(v, "transparent") {
        Some(TextureType::Transparent)
    } else {
        None
    }
}

impl TextureType {
    /// Case-insensitive texture keyword (Unicode lowercase of `s`).
    pub fn from_str(s: &str) -> (r: Option<TextureType>)
        ensures
            r == texture_keyword(unicode_lower(s@)),
    {
        let lower = to_lowercase(s);
        let v = to_chars(lower.as_str());
        texture_keyword_exec(&v)
    }
}

/// Border thickness on each side.
#[derive(Debug, Clone, Copy, PartialEq, Eq, Structural)]
pub struct BorderSize {
    pub left: u16,
    pub right: u16,
    pub top: u16,
    pub bottom: u16,
}

impl BorderSize {
    pub fn new(width: u16) -> (b: BorderSize)
        ensures
            b == (BorderSize { left: width, right: width, top: width, bottom: width }),
    {
        BorderSize { left: width, right: width, top: width, bottom: width }
    }

    pub fn zero() -> (b: BorderSize)
        ensures
            b == (BorderSize { left: 0, right: 0, top: 0, bottom: 0 }),
    {
        BorderSize { left: 0, right: 0, top: 0, bottom: 0 }
    }

    /// Horizontal border total; the sum must fit a `u16`.
    pub fn width_x(&self) -> (r: u16)
        requires
            self.left + self.right <= u16::MAX,
        ensures
            r == self.left + self.right,
    {
        self.left + self.right
    }

    /// Vertical border total; the sum must fit a `u16`.
    pub fn width_y(&self) -> (r: u16)
        requires
            self.top + self.bottom <= u16::MAX,
        ensures
            r == self.top + self.bottom,
    {
        self.top + self.bottom
    }
}

} // verus!
