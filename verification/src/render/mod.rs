pub mod image;
pub mod texture;
