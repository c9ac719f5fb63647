//! Creating offscreen cameras: the factory that allocates a render-target
//! texture and describes the camera that draws to it, and the handler of
//! requests to create one at run time.

use vstd::prelude::*;
use bevy_asset::UntypedHandle;
use bevy_ecs::entity::Entity;
use bevy_window::PrimaryWindow;
use wgpu_types::TextureFormat;
use crate::camera::{OffscreenCamera, OffscreenSettings};
use crate::sync::{stale_textures, OffscreenCameraSyncPlugin};
use crate::texture::{
    add_target_texture, check_target, handle_texture, handle_texture_id, modified_textures,
    stored_textures, target_check, target_defined, StorageError, TextureId, TextureState,
    TextureStore,
};
use crate::viewport::{
    camera_of, get_viewport_size, resolved_size, CameraState, PixelSize, RenderTarget, WindowState,
};

verus! {

/// `bevy_ecs::entity::Entity`, the identifier of an entity.
#[verifier::external_type_specification]
#[verifier::external_body]
pub struct ExEntity(Entity);

/// The kind of camera to create.
#[derive(Clone, Copy, Debug, PartialEq, Eq, Structural)]
pub enum CameraKind {
    Camera2d,
    Camera3d,
}

/// What a camera does to its target before it draws.
#[derive(Clone, Copy, Debug, PartialEq, Eq, Structural)]
pub enum ClearBehavior {
    /// Clear to the colour that the application has configured.
    Configured,
    /// Clear to fully transparent black.
    Transparent,
    /// Do not clear.
    Untouched,
}

/// A request to create one more offscreen camera on the camera entity `target`.
#[derive(Clone, Copy)]
pub struct SpawnOffscreenCamera {
    /// The camera entity that will own the new camera.
    pub target: Entity,
    /// The kind of the new camera.
    pub kind: CameraKind,
    /// The pixel format of the texture that the new camera draws to.
    pub format: TextureFormat,
}

/// All that the application needs to spawn an offscreen camera: one new
/// entity, child of `parent`, made of these parts.
pub struct OffscreenCameraBundle<C, W = PrimaryWindow> {
    /// The tag of offscreen cameras of this owner.
    pub marker: OffscreenCamera<C, W>,
    /// The entity under which the new camera is placed.
    pub parent: Entity,
    /// The kind of the new camera.
    pub kind: CameraKind,
    /// The only layer that the new camera renders.
    pub layer: usize,
    /// The new camera's viewport and target.
    pub camera: CameraState,
    /// The strong handle of the texture that the new camera draws to.
    pub handle: UntypedHandle,
    /// How the new camera clears its texture.
    pub clear: ClearBehavior,
}

/// What creating an offscreen camera comes to. The bundle describes a child
/// of `owner` of the given `kind` that renders only `layer`, has no
/// sub-viewport, clears to full transparency and draws to the texture of its
/// handle. That texture was not in the store `before`; `after` holds it with
/// `size`, one layer, `format` and a pixel buffer, and every other texture as
/// it was.
pub open spec fn is_created<C, W>(
    bundle: OffscreenCameraBundle<C, W>,
    owner: Entity,
    layer: usize,
    kind: CameraKind,
    format: TextureFormat,
    size: PixelSize,
    before: Map<TextureId, TextureState>,
    after: Map<TextureId, TextureState>,
) -> bool {
    &&& bundle.parent == owner
    &&& bundle.kind == kind
    &&& bundle.layer == layer
    &&& bundle.clear == ClearBehavior::Transparent
    &&& bundle.camera == (CameraState {
        viewport: None,
        target: RenderTarget::Image { texture: handle_texture(bundle.handle) },
    })
    &&& !before.dom().contains(handle_texture(bundle.handle))
    &&& after == before.insert(
        handle_texture(bundle.handle),
        (TextureState { size, layers: 1, format, has_data: true }),
    )
}

impl<C, W> OffscreenCameraBundle<C, W> {
    /// Allocates a render-target texture and describes the offscreen camera
    /// that draws to it.
    ///
    /// The texture is new in the store, zero-filled, in `format`, with one layer
    /// and the size at which `camera` renders in `window` right now; no other
    /// texture changes. The camera described is a child of `owner`, of the
    /// given `kind`, renders only `layer`, has no sub-viewport, draws to that
    /// texture and clears it to full transparency.
    ///
    /// The engine must be able to create such a texture; see
    /// [`Self::try_create`] for callers that cannot know.
    pub fn create(
        owner: Entity,
        camera: Option<&CameraState>,
        window: &WindowState,
        layer: usize,
        kind: CameraKind,
        format: TextureFormat,
        store: &mut TextureStore,
    ) -> (bundle: Self)
        requires
            target_defined(format, resolved_size(camera_of(camera), *window)),
        ensures
            is_created(
                bundle,
                owner,
                layer,
                kind,
                format,
                resolved_size(camera_of(camera), *window),
                stored_textures(*old(store)),
                stored_textures(*final(store)),
            ),
            modified_textures(*final(store)) == modified_textures(*old(store)),
    {
        let size = get_viewport_size(camera, window);
        let handle = add_target_texture(store, size, format);
        let texture = handle_texture_id(&handle);
        OffscreenCameraBundle {
            marker: OffscreenCamera::default(),
            parent: owner,
            kind,
            layer,
            camera: CameraState { viewport: None, target: RenderTarget::Image { texture } },
            handle,
            clear: ClearBehavior::Transparent,
        }
    }

    /// [`Self::create`] for callers that cannot know whether the engine can
    /// create a texture of the resolved size in `format`.
    ///
    /// Where it can, the camera is created. Where it cannot, the store is left
    /// as it was and the error says why.
    pub fn try_create(
        owner: Entity,
        camera: Option<&CameraState>,
        window: &WindowState,
        layer: usize,
        kind: CameraKind,
        format: TextureFormat,
        store: &mut TextureStore,
    ) -> (result: Result<Self, StorageError>)
        ensures
            result is Ok <==> target_defined(format, resolved_size(camera_of(camera), *window)),
            result matches Ok(bundle) ==> is_created(
                bundle,
                owner,
                layer,
                kind,
                format,
                resolved_size(camera_of(camera), *window),
                stored_textures(*old(store)),
                stored_textures(*final(store)),
            ),
            result is Ok ==> modified_textures(*final(store)) == modified_textures(*old(store)),
            result matches Err(error) ==> target_check(
                format,
                resolved_size(camera_of(camera), *window),
            ) == Err::<(), StorageError>(error),
            result is Err ==> stored_textures(*final(store)) == stored_textures(*old(store)),
            result is Err ==> modified_textures(*final(store)) == modified_textures(*old(store)),
    {
        let size = get_viewport_size(camera, window);
        match check_target(format, size) {
            Ok(()) => Ok(Self::create(owner, camera, window, layer, kind, format, store)),
            Err(error) => Err(error),
        }
    }
}

impl<C, W> OffscreenCameraSyncPlugin<C, W> {
    /// Answers a request for one more offscreen camera.
    ///
    /// The new camera is created as [`OffscreenCameraBundle::create`] does it:
    /// on the request's target, of the requested kind and format, rendering the
    /// layer from `settings`, sized after `camera`, the target's own camera
    /// where it has one, shown in `window`.
    pub fn handle_spawn_request(
        request: &SpawnOffscreenCamera,
        settings: &OffscreenSettings,
        camera: Option<&CameraState>,
        window: &WindowState,
        store: &mut TextureStore,
    ) -> (bundle: OffscreenCameraBundle<C, W>)
        requires
            target_defined(request.format, resolved_size(camera_of(camera), *window)),
        ensures
            is_created(
                bundle,
                request.target,
                settings.layer,
                request.kind,
                request.format,
                resolved_size(camera_of(camera), *window),
                stored_textures(*old(store)),
                stored_textures(*final(store)),
            ),
            modified_textures(*final(store)) == modified_textures(*old(store)),
    {
        OffscreenCameraBundle::create(
            request.target,
            camera,
            window,
            settings.layer,
            request.kind,
            request.format,
            store,
        )
    }

    /// [`Self::handle_spawn_request`] for callers that cannot know whether the
    /// engine can create a texture of the resolved size in the requested
    /// format. Where it cannot, the store is left as it was and the error says
    /// why.
    pub fn try_handle_spawn_request(
        request: &SpawnOffscreenCamera,
        settings: &OffscreenSettings,
        camera: Option<&CameraState>,
        window: &WindowState,
        store: &mut TextureStore,
    ) -> (result: Result<OffscreenCameraBundle<C, W>, StorageError>)
        ensures
            result is Ok <==> target_defined(
                request.format,
                resolved_size(camera_of(camera), *window),
            ),
            result matches Ok(bundle) ==> is_created(
                bundle,
                request.target,
                settings.layer,
                request.kind,
                request.format,
                resolved_size(camera_of(camera), *window),
                stored_textures(*old(store)),
                stored_textures(*final(store)),
            ),
            result is Ok ==> modified_textures(*final(store)) == modified_textures(*old(store)),
            result matches Err(error) ==> target_check(
                request.format,
                resolved_size(camera_of(camera), *window),
            ) == Err::<(), StorageError>(error),
            result is Err ==> stored_textures(*final(store)) == stored_textures(*old(store)),
            result is Err ==> modified_textures(*final(store)) == modified_textures(*old(store)),
    {
        OffscreenCameraBundle::try_create(
            request.target,
            camera,
            window,
            settings.layer,
            request.kind,
            request.format,
            store,
        )
    }
}

/// A texture that was created at the size of a viewport is not stale while
/// the viewport keeps that size: the next frame leaves it alone, whichever
/// cameras draw to it.
pub proof fn created_texture_needs_no_resize(
    textures: Map<TextureId, TextureState>,
    created: TextureId,
    format: TextureFormat,
    cameras: Seq<CameraState>,
    size: PixelSize,
)
    ensures
        !stale_textures(
            textures.insert(created, (TextureState { size, layers: 1, format, has_data: true })),
            cameras,
            size,
        ).contains(created),
        forall|id: TextureId|
            id != created ==> (stale_textures(
                textures.insert(created, (TextureState { size, layers: 1, format, has_data: true })),
                cameras,
                size,
            ).contains(id) <==> #[trigger] stale_textures(textures, cameras, size).contains(id)),
{
}

} // verus!
