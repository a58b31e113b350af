//! Textures: how a surface is filled (flat, gradient, pixmap) and with which
//! colors.

use vstd::prelude::*;
use crate::core_types::{Color, ColorAlloc, TextureType};

verus! {

#[derive(Debug, Clone)]
pub struct Texture {
    pub type_: TextureType,
    pub color: Color,
    pub color_to: Color,
    pub hi_color: Color,
    pub lo_color: Color,
    pub bevel_width: u16,
    pub interlaced: bool,
    pub border: bool,
    pub gradient: GradientType,
    pub pixmap: Option<String>,
}

#[derive(Debug, Clone, Copy, PartialEq, Eq, Structural)]
pub enum GradientType {
    /// No gradient.
    Unset,
    Diagonal,
    Horizontal,
    Vertical,
    CrossDiagonal,
    Pyramid,
    Rectangle,
    PipeCross,
    Elliptic,
    MirrorHorizontal,
    MirrorVertical,
    Solid,
}

/// The color with the given channels, no pixel and no allocation.
pub open spec fn color_val(r: int, g: int, b: int, a: int) -> Color {
    Color {
        red: r as u16,
        green: g as u16,
        blue: b as u16,
        alpha: a as u16,
        pixel: 0,
        alloc: ColorAlloc::Unset,
    }
}

/// `Color::default()`: opaque black.
pub open spec fn default_color() -> Color {
    color_val(0, 0, 0, 0xffff)
}

/// A flat texture in default colors, no bevel, no gradient, no pixmap.
pub open spec fn new_texture() -> Texture {
    Texture {
        type_: TextureType::Flat,
        color: default_color(),
        color_to: default_color(),
        hi_color: default_color(),
        lo_color: default_color(),
        bevel_width: 0,
        interlaced: false,
        border: false,
        gradient: GradientType::Unset,
        pixmap: None,
    }
}

impl Texture {
    pub open spec fn spec_new() -> Texture {
        new_texture()
    }

    pub fn new() -> (r: Self)
        ensures
            r == new_texture(),
    {
        Texture {
            type_: TextureType::Flat,
            color: Color::default(),
            color_to: Color::default(),
            hi_color: Color::default(),
            lo_color: Color::default(),
            bevel_width: 0,
            interlaced: false,
            border: false,
            gradient: GradientType::Unset,
            pixmap: None,
        }
    }

    pub fn is_gradient(&self) -> (r: bool)
        ensures
            r == (self.gradient != GradientType::Unset),
    {
        self.gradient != GradientType::Unset
    }

    /// Solid and flat textures are filled with one color.
    pub fn is_solid(&self) -> (r: bool)
        ensures
            r == (self.type_ == TextureType::Solid || self.type_ == TextureType::Flat),
    {
        self.type_ == TextureType::Solid || self.type_ == TextureType::Flat
    }

    /// A pixmap texture that names its pixmap.
    pub fn is_pixmap(&self) -> (r: bool)
        ensures
            r == (self.type_ == TextureType::Pixmap && self.pixmap is Some),
    {
        self.type_ == TextureType::Pixmap && self.pixmap.is_some()
    }
}

impl Default for Texture {
    fn default() -> (r: Self)
        ensures
            r == new_texture(),
    {
        Self::new()
    }
}

} // verus!
