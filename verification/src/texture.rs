//! What the library keeps of textures and of the way they are drawn: sizes and
//! parameters, never pixels.

use vstd::prelude::*;

verus! {

/// The size of a texture, a render target or an output surface, in whole pixels.
#[derive(Clone, Copy, Debug, PartialEq, Eq, Structural)]
pub struct ImageSize {
    pub width: u32,
    pub height: u32,
}

/// How a texture is sampled when it is drawn larger than it is.
#[derive(Clone, Copy, Debug, PartialEq, Eq, Structural)]
pub enum FilterMode {
    /// The nearest texel wins: hard pixel edges.
    Nearest,
    /// Neighbouring texels are blended.
    Linear,
}

/// How a texture is drawn at its place.
#[derive(Clone, Copy, Debug, PartialEq, Eq, Structural)]
pub struct DrawTextureParams {
    /// The size it is stretched to, in whole pixels; its own size if `None`.
    pub dest_size: Option<ImageSize>,
    /// Rotation about its centre, in thousandths of a radian.
    pub rotation: i64,
    pub flip_x: bool,
    pub flip_y: bool,
}

impl Default for DrawTextureParams {
    /// Unscaled, unrotated, not mirrored.
    fn default() -> (params: DrawTextureParams)
        ensures
            params == (DrawTextureParams {
                dest_size: None,
                rotation: 0,
                flip_x: false,
                flip_y: false,
            }),
    {
        DrawTextureParams { dest_size: None, rotation: 0, flip_x: false, flip_y: false }
    }
}

} // verus!
