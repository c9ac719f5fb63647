//! Pixel sizes, what the library reads of cameras and windows, and the rule that
//! picks the size an offscreen texture must have.

use vstd::prelude::*;
use crate::texture::TextureId;

verus! {

/// A size in physical pixels.
#[derive(Clone, Copy, Debug, PartialEq, Eq, Structural)]
pub struct PixelSize {
    pub width: u32,
    pub height: u32,
}

/// Where a camera draws to, as far as the library distinguishes it.
#[derive(Clone, Copy, Debug, PartialEq, Eq, Structural)]
pub enum RenderTarget {
    /// A texture of the image store.
    Image { texture: TextureId },
    /// A window, a texture view made outside the engine, or nothing.
    Other,
}

/// What the library reads of a camera.
#[derive(Clone, Copy, Debug, PartialEq, Eq, Structural)]
pub struct CameraState {
    /// The physical size of the camera's sub-viewport, if it declares one.
    pub viewport: Option<PixelSize>,
    /// Where the camera draws to.
    pub target: RenderTarget,
}

/// What the library reads of a window.
#[derive(Clone, Copy, Debug, PartialEq, Eq, Structural)]
pub struct WindowState {
    /// The size of the window's client area in physical pixels.
    pub physical_size: PixelSize,
}

/// The size a camera renders at: its own sub-viewport where it declares one,
/// the whole window otherwise, also where there is no camera.
pub open spec fn resolved_size(camera: Option<CameraState>, window: WindowState) -> PixelSize {
    match camera {
        Some(CameraState { viewport: Some(size), .. }) => size,
        _ => window.physical_size,
    }
}

/// The camera behind an optional reference.
pub open spec fn camera_of(camera: Option<&CameraState>) -> Option<CameraState> {
    match camera {
        Some(c) => Some(*c),
        None => None,
    }
}

/// Resolves the effective pixel size of `camera` shown in `window`.
///
/// A camera with a sub-viewport renders at that viewport's size, whatever the
/// window's size is; any other camera, and no camera at all, renders at the
/// window's full physical size. There is no failing input.
pub fn get_viewport_size(camera: Option<&CameraState>, window: &WindowState) -> (size: PixelSize)
    ensures
        camera matches Some(c) ==> (c.viewport matches Some(viewport) ==> size == viewport),
        camera matches Some(c) ==> (c.viewport is None ==> size == window.physical_size),
        camera is None ==> size == window.physical_size,
        size == resolved_size(camera_of(camera), *window),
{
    match camera {
        Some(c) => match c.viewport {
            Some(viewport) => viewport,
            None => window.physical_size,
        },
        None => window.physical_size,
    }
}

} // verus!
