//! Offscreen cameras: secondary cameras that render into a texture whose
//! resolution follows the viewport of the camera that owns them.

pub mod camera;
pub mod spawn;
pub mod sync;
pub mod texture;
pub mod viewport;

pub use camera::{OffscreenCamera, OffscreenResizeEvent};
pub use viewport::get_viewport_size;
