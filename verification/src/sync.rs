//! The resize synchronizer: once per frame it brings every offscreen texture of
//! one owner camera to the size of that camera's viewport.

use vstd::prelude::*;
use core::marker::PhantomData;
use bevy_window::PrimaryWindow;
use crate::camera::{OffscreenResizeEvent, OffscreenSettings};
use crate::texture::{
    check_resize, modified_textures, resize_check, resize_defined, resize_texture, stored_textures,
    texture_state, StorageError, TextureId, TextureState, TextureStore,
};
use crate::viewport::{get_viewport_size, resolved_size, CameraState, PixelSize, RenderTarget, WindowState};

verus! {

/// Keeps the offscreen cameras of the owner camera tagged `C` in step with the
/// window tagged `W`.
pub struct OffscreenCameraSyncPlugin<C, W = PrimaryWindow> {
    layer: usize,
    _pd: PhantomData<(C, W)>,
}

/// Why the synchronizer left every texture as it was.
#[derive(Clone, Copy, Debug, PartialEq, Eq, Structural)]
pub struct SyncError {
    /// Position, among the offscreen cameras, of the first whose texture cannot
    /// be resized.
    pub camera: usize,
    /// The texture that this camera draws to.
    pub texture: TextureId,
    /// Why the engine cannot resize it.
    pub reason: StorageError,
}

/// Whether one of `cameras` draws to the texture `id`.
pub open spec fn renders_to(cameras: Seq<CameraState>, id: TextureId) -> bool {
    exists|i: int|
        0 <= i < cameras.len() && (#[trigger] cameras[i]).target == (RenderTarget::Image {
            texture: id,
        })
}

/// The textures that a frame must resize: those in store that one of `cameras`
/// draws to and whose size is not `size`.
pub open spec fn stale_textures(
    textures: Map<TextureId, TextureState>,
    cameras: Seq<CameraState>,
    size: PixelSize,
) -> Set<TextureId> {
    Set::new(
        |id: TextureId|
            textures.dom().contains(id) && textures[id].size != size && renders_to(cameras, id),
    )
}

/// Whether a frame has anything to resize.
pub open spec fn needs_resize(
    textures: Map<TextureId, TextureState>,
    cameras: Seq<CameraState>,
    size: PixelSize,
) -> bool {
    exists|id: TextureId| #[trigger] stale_textures(textures, cameras, size).contains(id)
}

/// A texture after its resize: `size`, one layer, everything else as before.
pub open spec fn resized(texture: TextureState, size: PixelSize) -> TextureState {
    TextureState { size, layers: 1, ..texture }
}

/// The store after a frame: each stale texture resized, every other one
/// untouched, none added and none removed.
pub open spec fn synced_textures(
    textures: Map<TextureId, TextureState>,
    cameras: Seq<CameraState>,
    size: PixelSize,
) -> Map<TextureId, TextureState> {
    Map::new(
        |id: TextureId| textures.dom().contains(id),
        |id: TextureId|
            if stale_textures(textures, cameras, size).contains(id) {
                resized(textures[id], size)
            } else {
                textures[id]
            },
    )
}

/// Whether `camera` draws to a stale texture that the engine cannot resize.
pub open spec fn blocks_sync(
    textures: Map<TextureId, TextureState>,
    camera: CameraState,
    size: PixelSize,
) -> bool {
    camera.target matches RenderTarget::Image { texture } && textures.dom().contains(texture)
        && textures[texture].size != size && !resize_defined(textures[texture], size, 1)
}

/// Whether the engine can resize every stale texture.
pub open spec fn can_sync(
    textures: Map<TextureId, TextureState>,
    cameras: Seq<CameraState>,
    size: PixelSize,
) -> bool {
    forall|i: int| 0 <= i < cameras.len() ==> !blocks_sync(textures, #[trigger] cameras[i], size)
}

/// Whether `error` describes the first of `cameras` that blocks the frame.
pub open spec fn is_first_blocker(
    textures: Map<TextureId, TextureState>,
    cameras: Seq<CameraState>,
    size: PixelSize,
    error: SyncError,
) -> bool {
    &&& error.camera < cameras.len()
    &&& blocks_sync(textures, cameras[error.camera as int], size)
    &&& forall|j: int| 0 <= j < error.camera ==> !blocks_sync(textures, #[trigger] cameras[j], size)
    &&& cameras[error.camera as int].target == (RenderTarget::Image { texture: error.texture })
    &&& resize_check(textures[error.texture], size, 1) == Err::<(), StorageError>(error.reason)
}

/// Looking at one more camera adds at most the texture it draws to.
proof fn lemma_stale_textures_step(
    textures: Map<TextureId, TextureState>,
    cameras: Seq<CameraState>,
    i: int,
    size: PixelSize,
)
    requires
        0 <= i < cameras.len(),
    ensures
        stale_textures(textures, cameras.take(i + 1), size) == (match cameras[i].target {
            RenderTarget::Image { texture } => if textures.dom().contains(texture)
                && textures[texture].size != size {
                stale_textures(textures, cameras.take(i), size).insert(texture)
            } else {
                stale_textures(textures, cameras.take(i), size)
            },
            RenderTarget::Other => stale_textures(textures, cameras.take(i), size),
        }),
{
    let shorter = cameras.take(i);
    let longer = cameras.take(i + 1);
    assert forall|id: TextureId| renders_to(longer, id) <==> (renders_to(shorter, id)
        || cameras[i].target == (RenderTarget::Image { texture: id })) by {
        // The camera added last is a witness among the longer run.
        assert(longer[i] == cameras[i]);
    }
}

impl<C, W> View for OffscreenCameraSyncPlugin<C, W> {
    type V = OffscreenSettings;

    /// A plugin is the settings it registers.
    closed spec fn view(&self) -> OffscreenSettings {
        OffscreenSettings { layer: self.layer }
    }
}

impl<C, W> Default for OffscreenCameraSyncPlugin<C, W> {
    fn default() -> (plugin: Self)
        ensures
            plugin@ == (OffscreenSettings { layer: 0 }),
    {
        Self { layer: 0, _pd: PhantomData }
    }
}

impl<C, W> OffscreenCameraSyncPlugin<C, W> {
    /// A plugin whose spawned offscreen cameras render layer 0, the layer that
    /// every camera renders unless told otherwise.
    pub fn new() -> (plugin: Self)
        ensures
            plugin@ == (OffscreenSettings { layer: 0 }),
    {
        Self { layer: 0, _pd: PhantomData }
    }

    /// The same plugin, with `layer` as the layer of its spawned cameras.
    pub fn with_layer(self, layer: usize) -> (plugin: Self)
        ensures
            plugin@ == (OffscreenSettings { layer }),
    {
        Self { layer, _pd: PhantomData }
    }

    /// The settings that the plugin registers with the application.
    pub fn settings(&self) -> (settings: OffscreenSettings)
        ensures
            settings == self@,
    {
        OffscreenSettings { layer: self.layer }
    }
}

impl<C, W> OffscreenCameraSyncPlugin<C, W> {
    /// Brings the textures of the offscreen cameras to the size at which
    /// `rendering_camera` renders in `window`.
    ///
    /// Each texture in the store that one of `offscreen` draws to and whose
    /// width or height differs from that size is resized in place to that size
    /// with one layer, keeping its format. A texture that already has the size
    /// is only read, never borrowed for writing, so the engine still draws into
    /// it this frame. The result is the one notification for the whole frame: it
    /// is there exactly when some texture was resized, and carries the new size.
    ///
    /// The engine must be able to resize every stale texture; see
    /// [`Self::try_sync_offscreen_cameras`] for callers that cannot know.
    pub fn sync_offscreen_cameras(
        rendering_camera: &CameraState,
        window: &WindowState,
        offscreen: &[CameraState],
        store: &mut TextureStore,
    ) -> (event: Option<OffscreenResizeEvent<C, W>>)
        requires
            can_sync(
                stored_textures(*old(store)),
                offscreen@,
                resolved_size(Some(*rendering_camera), *window),
            ),
        ensures
            stored_textures(*final(store)) == synced_textures(
                stored_textures(*old(store)),
                offscreen@,
                resolved_size(Some(*rendering_camera), *window),
            ),
            modified_textures(*final(store)) == modified_textures(*old(store)).union(
                stale_textures(
                    stored_textures(*old(store)),
                    offscreen@,
                    resolved_size(Some(*rendering_camera), *window),
                ),
            ),
            event is Some <==> needs_resize(
                stored_textures(*old(store)),
                offscreen@,
                resolved_size(Some(*rendering_camera), *window),
            ),
            event matches Some(e) ==> e@ == resolved_size(Some(*rendering_camera), *window),
    {
        let size = get_viewport_size(Some(rendering_camera), window);
        let ghost before = stored_textures(*store);
        let ghost modified_before = modified_textures(*store);
        let mut was_resized = false;
        let mut i: usize = 0;
        while i < offscreen.len()
            invariant
                i <= offscreen.len(),
                can_sync(before, offscreen@, size),
                stored_textures(*store) == synced_textures(before, offscreen@.take(i as int), size),
                modified_textures(*store) == modified_before.union(
                    stale_textures(before, offscreen@.take(i as int), size),
                ),
                was_resized <==> needs_resize(before, offscreen@.take(i as int), size),
            decreases offscreen.len() - i,
        {
            let ghost seen = stale_textures(before, offscreen@.take(i as int), size);
            proof {
                lemma_stale_textures_step(before, offscreen@, i as int, size);
            }
            match offscreen[i].target {
                RenderTarget::Image { texture } => {
                    match texture_state(store, texture) {
                        Some(state) => {
                            if state.size != size {
                                resize_texture(store, texture, size, 1);
                                was_resized = true;
                                assert(seen.insert(texture).contains(texture));
                            }
                        },
                        None => {},
                    }
                },
                RenderTarget::Other => {},
            }
            i += 1;
        }
        proof {
            assert(offscreen@.take(i as int) =~= offscreen@);
        }
        if was_resized {
            Some(OffscreenResizeEvent::new(size))
        } else {
            None
        }
    }

    /// [`Self::sync_offscreen_cameras`] for callers that cannot know whether the
    /// engine can resize every stale texture.
    ///
    /// It first reads every texture that the frame would resize. If the engine
    /// can resize them all, the frame runs and its notification is returned. If
    /// not, nothing is resized and nothing is borrowed for writing; the error
    /// names the first offscreen camera whose texture stands in the way.
    pub fn try_sync_offscreen_cameras(
        rendering_camera: &CameraState,
        window: &WindowState,
        offscreen: &[CameraState],
        store: &mut TextureStore,
    ) -> (result: Result<Option<OffscreenResizeEvent<C, W>>, SyncError>)
        ensures
            result is Ok <==> can_sync(
                stored_textures(*old(store)),
                offscreen@,
                resolved_size(Some(*rendering_camera), *window),
            ),
            result is Ok ==> stored_textures(*final(store)) == synced_textures(
                stored_textures(*old(store)),
                offscreen@,
                resolved_size(Some(*rendering_camera), *window),
            ),
            result is Ok ==> modified_textures(*final(store)) == modified_textures(
                *old(store),
            ).union(
                stale_textures(
                    stored_textures(*old(store)),
                    offscreen@,
                    resolved_size(Some(*rendering_camera), *window),
                ),
            ),
            result matches Ok(event) ==> (event is Some <==> needs_resize(
                stored_textures(*old(store)),
                offscreen@,
                resolved_size(Some(*rendering_camera), *window),
            )),
            result matches Ok(Some(e)) ==> e@ == resolved_size(Some(*rendering_camera), *window),
            result is Err ==> stored_textures(*final(store)) == stored_textures(*old(store)),
            result is Err ==> modified_textures(*final(store)) == modified_textures(*old(store)),
            result matches Err(error) ==> is_first_blocker(
                stored_textures(*old(store)),
                offscreen@,
                resolved_size(Some(*rendering_camera), *window),
                error,
            ),
    {
        let size = get_viewport_size(Some(rendering_camera), window);
        let ghost before = stored_textures(*store);
        let ghost modified_before = modified_textures(*store);
        let mut i: usize = 0;
        while i < offscreen.len()
            invariant
                i <= offscreen.len(),
                size == resolved_size(Some(*rendering_camera), *window),
                before == stored_textures(*old(store)),
                modified_before == modified_textures(*old(store)),
                stored_textures(*store) == before,
                modified_textures(*store) == modified_before,
                forall|j: int| 0 <= j < i ==> !blocks_sync(before, #[trigger] offscreen@[j], size),
            decreases offscreen.len() - i,
        {
            match offscreen[i].target {
                RenderTarget::Image { texture } => {
                    match texture_state(store, texture) {
                        Some(state) => {
                            if state.size != size {
                                match check_resize(&state, size, 1) {
                                    Err(reason) => {
                                        return Err(SyncError { camera: i, texture, reason });
                                    },
                                    Ok(()) => {},
                                }
                            }
                        },
                        None => {},
                    }
                },
                RenderTarget::Other => {},
            }
            i += 1;
        }
        Ok(Self::sync_offscreen_cameras(rendering_camera, window, offscreen, store))
    }
}

/// Idempotence. A frame that follows another with the same cameras and the
/// same viewport size finds nothing stale: it resizes no texture, borrows none
/// for writing and raises no notification, and the engine can always run it.
pub proof fn sync_is_idempotent(
    textures: Map<TextureId, TextureState>,
    cameras: Seq<CameraState>,
    size: PixelSize,
)
    ensures
        stale_textures(synced_textures(textures, cameras, size), cameras, size) == Set::<
            TextureId,
        >::empty(),
        !needs_resize(synced_textures(textures, cameras, size), cameras, size),
        can_sync(synced_textures(textures, cameras, size), cameras, size),
        synced_textures(synced_textures(textures, cameras, size), cameras, size) == synced_textures(
            textures,
            cameras,
            size,
        ),
{
    let once = synced_textures(textures, cameras, size);
    assert forall|id: TextureId| !stale_textures(once, cameras, size).contains(id) by {
        // A texture that was stale has the size now; any other is as it was,
        // and was not stale.
        assert(stale_textures(textures, cameras, size).contains(id) ==> once[id].size == size);
    }
}

/// Change detection. After a frame every stale texture has the new size and
/// one layer and keeps its format and its pixel buffer; every other texture is
/// as it was; and so each offscreen camera whose texture is in the store draws
/// to a texture of the new size.
pub proof fn sync_resizes_every_stale_texture(
    textures: Map<TextureId, TextureState>,
    cameras: Seq<CameraState>,
    size: PixelSize,
)
    ensures
        synced_textures(textures, cameras, size).dom() == textures.dom(),
        forall|id: TextureId| #[trigger]
            stale_textures(textures, cameras, size).contains(id) ==> synced_textures(
                textures,
                cameras,
                size,
            )[id] == (TextureState { size, layers: 1, ..textures[id] }),
        forall|id: TextureId|
            textures.dom().contains(id) && !(#[trigger] stale_textures(
                textures,
                cameras,
                size,
            ).contains(id)) ==> synced_textures(textures, cameras, size)[id] == textures[id],
        forall|i: int|
            0 <= i < cameras.len() ==> ((#[trigger] cameras[i]).target matches RenderTarget::Image {
                texture,
            } ==> (textures.dom().contains(texture) ==> synced_textures(
                textures,
                cameras,
                size,
            )[texture].size == size)),
{
    assert forall|i: int| 0 <= i < cameras.len() implies ((#[trigger] cameras[i]).target matches RenderTarget::Image {
        texture,
    } ==> (textures.dom().contains(texture) ==> synced_textures(textures, cameras, size)[texture].size
        == size)) by {
        // The camera itself shows that its texture is drawn to.
        assert(cameras[i].target matches RenderTarget::Image { texture } ==> renders_to(
            cameras,
            texture,
        ));
    }
}

/// No-op. Where every offscreen texture already has the size, a frame changes
/// nothing: no texture is stale, none is resized and no notification is raised.
pub proof fn sync_leaves_matching_textures(
    textures: Map<TextureId, TextureState>,
    cameras: Seq<CameraState>,
    size: PixelSize,
)
    requires
        forall|i: int|
            0 <= i < cameras.len() ==> ((#[trigger] cameras[i]).target matches RenderTarget::Image {
                texture,
            } ==> (textures.dom().contains(texture) ==> textures[texture].size == size)),
    ensures
        stale_textures(textures, cameras, size) == Set::<TextureId>::empty(),
        !needs_resize(textures, cameras, size),
        can_sync(textures, cameras, size),
        synced_textures(textures, cameras, size) == textures,
{
    // A stale texture would be drawn to by a camera whose texture has another
    // size, and there is no such camera.
    assert forall|id: TextureId| !stale_textures(textures, cameras, size).contains(id) by {}
}

} // verus!
