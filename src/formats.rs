//! Plain options of textures and text layout.
use vstd::prelude::*;

verus! {

/// The pixel layout of a texture.
#[derive(Debug, Clone, Copy, Eq, PartialEq, Structural)]
pub enum TextureFormat {
    Rgba,
    Red,
    R8,
}

/// How a texture is sampled between texels.
#[derive(Debug, Clone, Copy, Eq, PartialEq, Structural)]
pub enum TextureFilter {
    Linear,
    Nearest,
}

/// Horizontal alignment of text.
#[derive(Debug, Clone, Copy, PartialEq, Eq, Hash, Structural)]
pub enum HorizontalAlign {
    Left,
    Center,
    Right,
}

/// Vertical alignment of text.
#[derive(Debug, Clone, Copy, PartialEq, Eq, Hash, Structural)]
pub enum VerticalAlign {
    Top,
    Center,
    Bottom,
}

} // verus!
