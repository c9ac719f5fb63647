use bevy_offscreen::texture::{check_buffer, check_resize, check_target, StorageError, TextureState};
use bevy_offscreen::viewport::PixelSize;
use wgpu_types::{AstcBlock, AstcChannel, TextureFormat};

fn size(width: u32, height: u32) -> PixelSize {
    PixelSize { width, height }
}

fn texture(format: TextureFormat, has_data: bool) -> TextureState {
    TextureState { size: size(1, 1), layers: 1, format, has_data }
}

#[test]
fn buffer_of_sized_format_fits() {
    assert_eq!(check_buffer(TextureFormat::Rgba8UnormSrgb, size(800, 600), 1), Ok(()));
    assert_eq!(check_buffer(TextureFormat::Rgba32Float, size(4096, 4096), 6), Ok(()));
    assert_eq!(check_buffer(TextureFormat::R8Uint, size(0, 0), 0), Ok(()));
}

#[test]
fn buffer_pixel_count_is_bounded_by_u32() {
    // 65535 * 65537 = 2^32 - 1, the largest count that fits.
    assert_eq!(check_buffer(TextureFormat::R8Unorm, size(65535, 65537), 1), Ok(()));
    assert_eq!(check_buffer(TextureFormat::Rgba32Float, size(65535, 65537), 1), Ok(()));
    assert_eq!(
        check_buffer(TextureFormat::R8Unorm, size(65536, 65536), 1),
        Err(StorageError::TooLarge)
    );
    assert_eq!(
        check_buffer(TextureFormat::R8Unorm, size(65535, 65537), 2),
        Err(StorageError::TooLarge)
    );
    assert_eq!(
        check_buffer(TextureFormat::R8Unorm, size(u32::MAX, u32::MAX), u32::MAX),
        Err(StorageError::TooLarge)
    );
    // A layer that is too large is refused even where there is no layer.
    assert_eq!(
        check_buffer(TextureFormat::R8Unorm, size(65536, 65536), 0),
        Err(StorageError::TooLarge)
    );
    assert_eq!(check_buffer(TextureFormat::R8Unorm, size(65535, 65537), 0), Ok(()));
}

#[test]
fn buffer_needs_a_size_per_pixel() {
    assert_eq!(
        check_buffer(TextureFormat::Depth24Plus, size(1, 1), 1),
        Err(StorageError::UnsupportedFormat)
    );
    assert_eq!(
        check_buffer(TextureFormat::Depth24PlusStencil8, size(1, 1), 1),
        Err(StorageError::UnsupportedFormat)
    );
    // The missing size is reported before the size of the buffer is looked at.
    assert_eq!(
        check_buffer(TextureFormat::Depth32FloatStencil8, size(u32::MAX, u32::MAX), 1),
        Err(StorageError::UnsupportedFormat)
    );
    assert_eq!(check_buffer(TextureFormat::Depth32Float, size(1, 1), 1), Ok(()));
}

#[test]
fn resize_of_texture_without_buffer_is_always_defined() {
    let state = texture(TextureFormat::Depth24Plus, false);
    assert_eq!(check_resize(&state, size(u32::MAX, u32::MAX), u32::MAX), Ok(()));
    let state = texture(TextureFormat::Rgba8Unorm, false);
    assert_eq!(check_resize(&state, size(65536, 65536), 1), Ok(()));
}

#[test]
fn resize_of_block_compressed_texture_is_always_defined() {
    let state = texture(TextureFormat::Bc7RgbaUnorm, true);
    assert_eq!(check_resize(&state, size(u32::MAX, u32::MAX), 1), Ok(()));
    let astc = TextureFormat::Astc { block: AstcBlock::B8x8, channel: AstcChannel::Unorm };
    assert_eq!(check_resize(&texture(astc, true), size(65536, 65536), 1), Ok(()));
}

#[test]
fn resize_of_buffered_texture_must_fit() {
    let state = texture(TextureFormat::Rgba8Unorm, true);
    assert_eq!(check_resize(&state, size(1920, 1080), 1), Ok(()));
    assert_eq!(check_resize(&state, size(65536, 65536), 1), Err(StorageError::TooLarge));
    let depth = texture(TextureFormat::Depth24Plus, true);
    assert_eq!(check_resize(&depth, size(1, 1), 1), Err(StorageError::UnsupportedFormat));
}

#[test]
fn target_needs_an_uncompressed_sized_format() {
    assert_eq!(check_target(TextureFormat::R8Uint, size(800, 600)), Ok(()));
    assert_eq!(check_target(TextureFormat::Rgba16Float, size(0, 7)), Ok(()));
    assert_eq!(
        check_target(TextureFormat::Bc1RgbaUnorm, size(8, 8)),
        Err(StorageError::UnsupportedFormat)
    );
    assert_eq!(
        check_target(TextureFormat::Depth24Plus, size(8, 8)),
        Err(StorageError::UnsupportedFormat)
    );
    assert_eq!(
        check_target(TextureFormat::Rgba8Unorm, size(65536, 65536)),
        Err(StorageError::TooLarge)
    );
}
