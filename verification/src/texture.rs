//! Render-target textures as they live in the engine's image store.
//!
//! The store is `bevy_asset::Assets<Image>`. Verus cannot look inside it, so this
//! module names what it holds and states, for each call the library makes into
//! it, what that call does to those contents. Every item marked `external_body`
//! and every `uninterp` function here is believed, not proved; the rest of the
//! library is proved against them.
//!
//! Three values of the engine pass through the library as they are: a
//! `TextureFormat`, an `UntypedHandle` and an `Entity`. Each is an immutable
//! value, and what this module says of one, its block dimensions, its copy size
//! or the identifier it refers to, is a function of that value alone.

use vstd::prelude::*;
use bevy_asset::{AssetId, AssetIndex, Assets, UntypedAssetId, UntypedHandle};
use bevy_asset::uuid::Uuid;
use bevy_image::Image;
use wgpu_types::{Extent3d, TextureFormat};
use core::marker::PhantomData;
use crate::viewport::PixelSize;

verus! {

/// `wgpu_types::TextureFormat`, the pixel format of a texture.
#[verifier::external_type_specification]
#[verifier::external_body]
pub struct ExTextureFormat(TextureFormat);

/// `bevy_asset::UntypedHandle`, a reference to a stored asset. A strong handle
/// keeps its asset in the store for as long as the handle lives.
#[verifier::external_type_specification]
#[verifier::external_body]
pub struct ExUntypedHandle(UntypedHandle);

/// The engine's image store, `bevy_asset::Assets<Image>`, borrowed for one step.
///
/// `Assets<A>` is bound by the engine's `Asset` trait, which Verus does not
/// know, so the store cannot be declared to Verus as an outside type. It is
/// held here instead, and Verus sees nothing of the field. A caller wraps its
/// store in place: `TextureStore { images: &mut assets }`.
#[verifier::external_body]
pub struct TextureStore<'a> {
    pub images: &'a mut Assets<Image>,
}

/// Identifies a texture in the store: the plain value of a `bevy_asset::AssetId`.
#[derive(Clone, Copy, Debug, PartialEq, Eq, Structural)]
pub enum TextureId {
    /// A runtime index, as `AssetIndex::to_bits` gives it.
    Index { bits: u64 },
    /// A stable identifier, as `Uuid::as_u128` gives it.
    Uuid { value: u128 },
}

/// What the library reads of a stored texture.
#[derive(Clone, Copy)]
pub struct TextureState {
    /// Width and height in pixels.
    pub size: PixelSize,
    /// Depth, or number of array layers.
    pub layers: u32,
    /// Pixel format.
    pub format: TextureFormat,
    /// Whether the texture keeps a pixel buffer on the CPU side.
    pub has_data: bool,
}

/// Why a pixel buffer of some format and extent cannot be laid out.
#[derive(Clone, Copy, Debug, PartialEq, Eq, Structural)]
pub enum StorageError {
    /// The format has no size per pixel.
    UnsupportedFormat,
    /// The number of pixels exceeds `u32::MAX`, or the number of bytes `isize::MAX`.
    TooLarge,
}

/// The textures that `store` holds, by identifier.
pub uninterp spec fn stored_textures(store: TextureStore) -> Map<TextureId, TextureState>;

/// The textures of `store` that were borrowed for writing and for which the
/// store has queued a change notification. The engine redraws nothing into such
/// a texture in the current frame.
pub uninterp spec fn modified_textures(store: TextureStore) -> Set<TextureId>;

/// The identifier of the texture that `handle` refers to: `UntypedHandle::id`.
pub uninterp spec fn handle_texture(handle: UntypedHandle) -> TextureId;

/// Width and height of a block of texels: `TextureFormat::block_dimensions`.
pub uninterp spec fn block_dimensions(format: TextureFormat) -> (u32, u32);

/// Bytes that one block occupies in a copy, where the format as a whole has
/// such a size: `TextureFormat::block_copy_size` without an aspect.
pub uninterp spec fn block_copy_size(format: TextureFormat) -> Option<u32>;

/// Whether `format` stores each pixel by itself. Only for such a format does
/// the engine size a texture's pixel buffer.
pub open spec fn is_uncompressed(format: TextureFormat) -> bool {
    block_dimensions(format) == (1u32, 1u32)
}

/// Whether a pixel buffer for `size` and `layers` in an uncompressed `format`
/// can be laid out, and if not, why: the format must have a size per pixel, the
/// pixel count of one layer and of all layers must fit `u32`, and the byte
/// count must fit `isize`.
pub open spec fn buffer_check(format: TextureFormat, size: PixelSize, layers: u32) -> Result<
    (),
    StorageError,
> {
    if block_copy_size(format) is None {
        Err(StorageError::UnsupportedFormat)
    } else if size.width * size.height > u32::MAX {
        Err(StorageError::TooLarge)
    } else if size.width * size.height * layers > u32::MAX {
        Err(StorageError::TooLarge)
    } else if size.width * size.height * layers * block_copy_size(format)->0 > isize::MAX {
        Err(StorageError::TooLarge)
    } else {
        Ok(())
    }
}

/// Whether the engine can resize `texture` to `size` and `layers`, and if not,
/// why. A texture without a pixel buffer, or in a block-compressed format, only
/// has its descriptor changed; otherwise the new buffer must fit.
pub open spec fn resize_check(texture: TextureState, size: PixelSize, layers: u32) -> Result<
    (),
    StorageError,
> {
    if texture.has_data && is_uncompressed(texture.format) {
        buffer_check(texture.format, size, layers)
    } else {
        Ok(())
    }
}

/// Whether the engine can create a zero-filled render target of `size` in
/// `format`, and if not, why. A block-compressed format has no size per pixel.
pub open spec fn target_check(format: TextureFormat, size: PixelSize) -> Result<(), StorageError> {
    if is_uncompressed(format) {
        buffer_check(format, size, 1)
    } else {
        Err(StorageError::UnsupportedFormat)
    }
}

/// The engine can resize `texture` to `size` and `layers`.
pub open spec fn resize_defined(texture: TextureState, size: PixelSize, layers: u32) -> bool {
    resize_check(texture, size, layers) is Ok
}

/// The engine can create a render target of `size` in `format`.
pub open spec fn target_defined(format: TextureFormat, size: PixelSize) -> bool {
    target_check(format, size) is Ok
}

/// The block dimensions of `format`.
///
/// Trusted: calls `TextureFormat::block_dimensions`, a match on the format that
/// cannot fail.
#[verifier::external_body]
fn format_block_dimensions(format: TextureFormat) -> (dimensions: (u32, u32))
    ensures
        dimensions == block_dimensions(format),
{
    format.block_dimensions()
}

/// The copy size of a block of `format`, if the format as a whole has one.
///
/// Trusted: calls `TextureFormat::block_copy_size` with no aspect, a match on
/// the format that cannot fail.
#[verifier::external_body]
fn format_block_copy_size(format: TextureFormat) -> (bytes: Option<u32>)
    ensures
        bytes == block_copy_size(format),
{
    format.block_copy_size(None)
}

/// The identifier of the texture that `handle` refers to.
///
/// Trusted: calls `UntypedHandle::id` and turns the identifier into its plain
/// value, the bits of an index or the number of a UUID.
#[verifier::external_body]
pub(crate) fn handle_texture_id(handle: &UntypedHandle) -> (id: TextureId)
    ensures
        id == handle_texture(*handle),
{
    match handle.id() {
        UntypedAssetId::Index { index, .. } => TextureId::Index { bits: index.to_bits() },
        UntypedAssetId::Uuid { uuid, .. } => TextureId::Uuid { value: uuid.as_u128() },
    }
}

/// Reads the state of the texture stored under `id`, without borrowing it for
/// writing.
///
/// Trusted: calls `Assets::get`, which returns the image stored under `id` if
/// there is one and changes nothing, then reads `Image::size`, the layers and
/// the format of the image's descriptor, and whether the image has data.
#[verifier::external_body]
pub(crate) fn texture_state(store: &TextureStore, id: TextureId) -> (state: Option<TextureState>)
    ensures
        state == (if stored_textures(*store).dom().contains(id) {
            Some(stored_textures(*store)[id])
        } else {
            None
        }),
{
    let asset_id: AssetId<Image> = match id {
        TextureId::Index { bits } => AssetId::Index { index: AssetIndex::from_bits(bits), marker: PhantomData },
        TextureId::Uuid { value } => AssetId::Uuid { uuid: Uuid::from_u128(value) },
    };
    match store.images.get(asset_id) {
        Some(image) => Some(TextureState {
            size: PixelSize { width: image.size().x, height: image.size().y },
            layers: image.texture_descriptor.size.depth_or_array_layers,
            format: image.texture_descriptor.format,
            has_data: image.data.is_some(),
        }),
        None => None,
    }
}

/// Resizes the texture stored under `id` in place.
///
/// Trusted: calls `Assets::get_mut`, which queues a change notification for
/// `id`, then `Image::resize`, which sets the descriptor's extent and, where the
/// image has a pixel buffer in an uncompressed format, resizes that buffer to
/// pixels times bytes per pixel. Format and the presence of a buffer stay as
/// they are, and so does every other texture. `Image::resize` multiplies width,
/// height and layers in `u32` and unwraps the format's copy size; the
/// precondition keeps both from failing.
#[verifier::external_body]
pub(crate) fn resize_texture(store: &mut TextureStore, id: TextureId, size: PixelSize, layers: u32)
    requires
        stored_textures(*old(store)).dom().contains(id),
        resize_defined(stored_textures(*old(store))[id], size, layers),
    ensures
        stored_textures(*final(store)) == stored_textures(*old(store)).insert(
            id,
            (TextureState { size, layers, ..stored_textures(*old(store))[id] }),
        ),
        modified_textures(*final(store)) == modified_textures(*old(store)).insert(id),
{
    let asset_id: AssetId<Image> = match id {
        TextureId::Index { bits } => AssetId::Index { index: AssetIndex::from_bits(bits), marker: PhantomData },
        TextureId::Uuid { value } => AssetId::Uuid { uuid: Uuid::from_u128(value) },
    };
    if let Some(image) = store.images.get_mut(asset_id) {
        image.resize(Extent3d { width: size.width, height: size.height, depth_or_array_layers: layers });
    }
}

/// Adds a new zero-filled render-target texture of `size` and `format`.
///
/// Trusted: calls `Image::new_target_texture`, which makes an image of that
/// width, height and format with one layer and a zeroed pixel buffer, then
/// `Assets::add`, which stores it under an identifier that held no texture
/// before, queues an addition but no change notification, and returns a strong
/// handle to it. `Image::new_target_texture` expects the format to have a pixel
/// size and multiplies width and height in `u32`; the precondition keeps both
/// from failing.
#[verifier::external_body]
pub(crate) fn add_target_texture(store: &mut TextureStore, size: PixelSize, format: TextureFormat) -> (handle: UntypedHandle)
    requires
        target_defined(format, size),
    ensures
        !stored_textures(*old(store)).dom().contains(handle_texture(handle)),
        stored_textures(*final(store)) == stored_textures(*old(store)).insert(
            handle_texture(handle),
            (TextureState { size, layers: 1, format, has_data: true }),
        ),
        modified_textures(*final(store)) == modified_textures(*old(store)),
{
    store.images.add(Image::new_target_texture(size.width, size.height, format)).untyped()
}

/// Tells whether a pixel buffer of an uncompressed `format` for `size` and
/// `layers` can be laid out, and if not, why.
pub fn check_buffer(format: TextureFormat, size: PixelSize, layers: u32) -> (result: Result<(), StorageError>)
    ensures
        result == buffer_check(format, size, layers),
{
    match format_block_copy_size(format) {
        None => Err(StorageError::UnsupportedFormat),
        Some(bytes) => {
            assert(size.width * size.height <= 0xffff_ffff * 0xffff_ffff) by (nonlinear_arith)
                requires
                    size.width <= 0xffff_ffff,
                    size.height <= 0xffff_ffff,
            ;
            let area: u128 = (size.width as u128) * (size.height as u128);
            if area > u32::MAX as u128 {
                return Err(StorageError::TooLarge);
            }
            assert(area * layers <= 0xffff_ffff * 0xffff_ffff) by (nonlinear_arith)
                requires
                    area <= 0xffff_ffff,
                    layers <= 0xffff_ffff,
            ;
            let pixels: u128 = area * (layers as u128);
            if pixels > u32::MAX as u128 {
                return Err(StorageError::TooLarge);
            }
            assert(pixels * bytes <= 0xffff_ffff * 0xffff_ffff) by (nonlinear_arith)
                requires
                    pixels <= 0xffff_ffff,
                    bytes <= 0xffff_ffff,
            ;
            if pixels * (bytes as u128) > isize::MAX as u128 {
                Err(StorageError::TooLarge)
            } else {
                Ok(())
            }
        },
    }
}

/// Tells whether the engine can resize `texture` to `size` and `layers`, and if
/// not, why.
pub fn check_resize(texture: &TextureState, size: PixelSize, layers: u32) -> (result: Result<(), StorageError>)
    ensures
        result == resize_check(*texture, size, layers),
{
    if !texture.has_data {
        return Ok(());
    }
    let (width, height) = format_block_dimensions(texture.format);
    if width == 1 && height == 1 {
        check_buffer(texture.format, size, layers)
    } else {
        Ok(())
    }
}

/// Tells whether the engine can create a render target of `size` in `format`,
/// and if not, why.
pub fn check_target(format: TextureFormat, size: PixelSize) -> (result: Result<(), StorageError>)
    ensures
        result == target_check(format, size),
{
    let (width, height) = format_block_dimensions(format);
    if width == 1 && height == 1 {
        check_buffer(format, size, 1)
    } else {
        Err(StorageError::UnsupportedFormat)
    }
}

} // verus!
