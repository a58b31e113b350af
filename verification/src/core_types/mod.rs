//! Basic value types: colors, stacking layers, rectangles, struts.

pub mod color;
pub mod layer;
pub mod rectangle;
pub mod point;

pub mod strut;
pub mod types;


pub use color::{parse_color, Color, ColorAlloc};
pub use layer::{Layer, LayerItem};
pub use point::Point;
pub use rectangle::Rectangle;

pub use strut::Strut;
pub use types::{Align, BorderSize, Gravity, Orientation, TextureType};
