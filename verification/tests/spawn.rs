use bevy_asset::{AssetId, Assets};
use bevy_ecs::entity::Entity;
use bevy_image::Image;
use bevy_offscreen::camera::OffscreenSettings;
use bevy_offscreen::spawn::{CameraKind, ClearBehavior, OffscreenCameraBundle, SpawnOffscreenCamera};
use bevy_offscreen::sync::OffscreenCameraSyncPlugin;
use bevy_offscreen::texture::{StorageError, TextureId, TextureStore};
use bevy_offscreen::viewport::{CameraState, PixelSize, RenderTarget, WindowState};
use wgpu_types::TextureFormat;

struct MainCamera;

type Plugin = OffscreenCameraSyncPlugin<MainCamera>;

type Bundle = OffscreenCameraBundle<MainCamera>;

fn texture_id(id: AssetId<Image>) -> TextureId {
    match id {
        AssetId::Index { index, .. } => TextureId::Index { bits: index.to_bits() },
        AssetId::Uuid { uuid } => TextureId::Uuid { value: uuid.as_u128() },
    }
}

fn window(width: u32, height: u32) -> WindowState {
    WindowState { physical_size: PixelSize { width, height } }
}

fn entity(index: u32) -> Entity {
    Entity::from_raw_u32(index).unwrap()
}

#[test]
fn spawn_request_creates_one_child_camera_with_its_texture() {
    let mut images = Assets::<Image>::default();
    let target = entity(42);
    let owning = CameraState {
        viewport: Some(PixelSize { width: 800, height: 600 }),
        target: RenderTarget::Other,
    };
    let request = SpawnOffscreenCamera {
        target,
        kind: CameraKind::Camera2d,
        format: TextureFormat::R8Uint,
    };
    let settings = OffscreenSettings { layer: 2 };
    let bundle: Bundle = {
        let mut store = TextureStore { images: &mut images };
        Plugin::handle_spawn_request(&request, &settings, Some(&owning), &window(1920, 1080), &mut store)
    };
    assert_eq!(bundle.parent, target);
    assert_eq!(bundle.layer, 2);
    assert_eq!(bundle.kind, CameraKind::Camera2d);
    assert_eq!(bundle.clear, ClearBehavior::Transparent);
    assert_eq!(images.len(), 1);
    let handle = bundle.handle.clone().typed::<Image>();
    assert!(handle.is_strong());
    assert_eq!(
        bundle.camera,
        CameraState { viewport: None, target: RenderTarget::Image { texture: texture_id(handle.id()) } }
    );
    let image = images.get(&handle).expect("the new texture is stored");
    assert_eq!(image.texture_descriptor.format, TextureFormat::R8Uint);
    assert_eq!((image.width(), image.height()), (800, 600));
    assert_eq!(image.texture_descriptor.size.depth_or_array_layers, 1);
    assert_eq!(image.data.as_ref().unwrap().len(), 800 * 600);
    assert!(image.data.as_ref().unwrap().iter().all(|byte| *byte == 0));
}

#[test]
fn spawn_request_on_entity_without_camera_uses_the_window() {
    let mut images = Assets::<Image>::default();
    let request = SpawnOffscreenCamera {
        target: entity(3),
        kind: CameraKind::Camera3d,
        format: TextureFormat::Rgba8UnormSrgb,
    };
    let settings = OffscreenSettings { layer: 7 };
    let result = {
        let mut store = TextureStore { images: &mut images };
        Plugin::try_handle_spawn_request(&request, &settings, None, &window(320, 200), &mut store)
    };
    let bundle = result.ok().expect("the texture can be created");
    assert_eq!(bundle.parent, entity(3));
    assert_eq!(bundle.kind, CameraKind::Camera3d);
    assert_eq!(bundle.layer, 7);
    let image = images.get(&bundle.handle.clone().typed::<Image>()).unwrap();
    assert_eq!((image.width(), image.height()), (320, 200));
    assert_eq!(image.data.as_ref().unwrap().len(), 320 * 200 * 4);
}

#[test]
fn factory_leaves_other_textures_alone() {
    let mut images = Assets::<Image>::default();
    let old = images.add(Image::new_target_texture(5, 6, TextureFormat::Rgba8Unorm));
    let camera = CameraState { viewport: None, target: RenderTarget::Other };
    let bundle: Bundle = {
        let mut store = TextureStore { images: &mut images };
        OffscreenCameraBundle::create(
            entity(1),
            Some(&camera),
            &window(64, 48),
            1,
            CameraKind::Camera2d,
            TextureFormat::Rgba16Float,
            &mut store,
        )
    };
    assert_eq!(images.len(), 2);
    let handle = bundle.handle.clone().typed::<Image>();
    assert_ne!(handle.id(), old.id());
    let kept = images.get(&old).unwrap();
    assert_eq!((kept.width(), kept.height()), (5, 6));
    assert_eq!(kept.texture_descriptor.format, TextureFormat::Rgba8Unorm);
    let made = images.get(&handle).unwrap();
    assert_eq!((made.width(), made.height()), (64, 48));
    assert_eq!(made.texture_descriptor.format, TextureFormat::Rgba16Float);
}

#[test]
fn each_request_creates_its_own_texture() {
    let mut images = Assets::<Image>::default();
    let request = SpawnOffscreenCamera {
        target: entity(9),
        kind: CameraKind::Camera2d,
        format: TextureFormat::Rgba8UnormSrgb,
    };
    let settings = OffscreenSettings { layer: 1 };
    let mut store = TextureStore { images: &mut images };
    let first: Bundle = Plugin::handle_spawn_request(&request, &settings, None, &window(4, 4), &mut store);
    let second: Bundle = Plugin::handle_spawn_request(&request, &settings, None, &window(4, 4), &mut store);
    assert_ne!(first.camera.target, second.camera.target);
    assert_eq!(images.len(), 2);
}

#[test]
fn created_camera_needs_no_resize() {
    let mut images = Assets::<Image>::default();
    let owning = CameraState {
        viewport: Some(PixelSize { width: 33, height: 44 }),
        target: RenderTarget::Other,
    };
    let shown = window(100, 100);
    let mut store = TextureStore { images: &mut images };
    let bundle: Bundle = OffscreenCameraBundle::create(
        entity(1),
        Some(&owning),
        &shown,
        0,
        CameraKind::Camera2d,
        TextureFormat::Rgba8UnormSrgb,
        &mut store,
    );
    let event = Plugin::sync_offscreen_cameras(&owning, &shown, &[bundle.camera], &mut store);
    assert!(event.is_none());
}

#[test]
fn factory_refuses_block_compressed_format() {
    let mut images = Assets::<Image>::default();
    let result: Result<Bundle, StorageError> = {
        let mut store = TextureStore { images: &mut images };
        OffscreenCameraBundle::try_create(
            entity(1),
            None,
            &window(64, 64),
            0,
            CameraKind::Camera2d,
            TextureFormat::Bc3RgbaUnorm,
            &mut store,
        )
    };
    assert_eq!(result.err(), Some(StorageError::UnsupportedFormat));
    assert!(images.is_empty());
}

#[test]
fn factory_refuses_format_without_pixel_size() {
    let mut images = Assets::<Image>::default();
    let request = SpawnOffscreenCamera {
        target: entity(2),
        kind: CameraKind::Camera3d,
        format: TextureFormat::Depth24PlusStencil8,
    };
    let result = {
        let mut store = TextureStore { images: &mut images };
        Plugin::try_handle_spawn_request(
            &request,
            &OffscreenSettings { layer: 0 },
            None,
            &window(64, 64),
            &mut store,
        )
    };
    assert_eq!(result.err(), Some(StorageError::UnsupportedFormat));
    assert!(images.is_empty());
}

#[test]
fn factory_refuses_a_pixel_count_beyond_u32() {
    let mut images = Assets::<Image>::default();
    let huge = CameraState {
        viewport: Some(PixelSize { width: 65536, height: 65536 }),
        target: RenderTarget::Other,
    };
    let result: Result<Bundle, StorageError> = {
        let mut store = TextureStore { images: &mut images };
        OffscreenCameraBundle::try_create(
            entity(1),
            Some(&huge),
            &window(64, 64),
            0,
            CameraKind::Camera2d,
            TextureFormat::R8Unorm,
            &mut store,
        )
    };
    assert_eq!(result.err(), Some(StorageError::TooLarge));
    assert!(images.is_empty());
}
