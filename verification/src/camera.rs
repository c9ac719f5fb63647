//! The marker that tags a camera as an offscreen camera, and the notification
//! that tells listeners that offscreen textures changed size.

use vstd::prelude::*;
use core::marker::PhantomData;
use bevy_window::PrimaryWindow;
use crate::viewport::PixelSize;

verus! {

/// `bevy_window::PrimaryWindow`, the marker of the application's main window.
#[verifier::external_type_specification]
#[verifier::external_body]
pub struct ExPrimaryWindow(PrimaryWindow);

/// Tags a camera as an offscreen camera of the owner camera tagged `C`, sized
/// after the window tagged `W`. It holds no data: both tags are types.
pub struct OffscreenCamera<C, W = PrimaryWindow> {
    _pd: PhantomData<(C, W)>,
}

impl<C, W> Default for OffscreenCamera<C, W> {
    fn default() -> Self {
        Self { _pd: PhantomData }
    }
}

/// The settings of one owner camera: the render layer that offscreen cameras
/// spawned on request are to render.
#[derive(Clone, Copy, Debug, PartialEq, Eq, Structural)]
pub struct OffscreenSettings {
    pub layer: usize,
}

/// Raised once in a frame in which offscreen textures of the owner tagged `C`
/// were resized; `new_size` is the size they now have.
pub struct OffscreenResizeEvent<C, W = PrimaryWindow> {
    pub new_size: PixelSize,
    _pd: PhantomData<(C, W)>,
}

impl<C, W> View for OffscreenResizeEvent<C, W> {
    type V = PixelSize;

    /// An event is the size it carries.
    closed spec fn view(&self) -> PixelSize {
        self.new_size
    }
}

impl<C, W> OffscreenResizeEvent<C, W> {
    /// The notification that textures now have `new_size`.
    pub fn new(new_size: PixelSize) -> (event: Self)
        ensures
            event@ == new_size,
    {
        Self { new_size, _pd: PhantomData }
    }

    /// The size that the resized textures now have.
    pub fn size(&self) -> (size: PixelSize)
        ensures
            size == self@,
    {
        self.new_size
    }
}

} // verus!
