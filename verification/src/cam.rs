//! Cameras, world transforms and the choice of the camera a frame is seen
//! through.

use crate::matrix::Matrix4;
use crate::storage::Storage;
use vstd::prelude::*;

verus! {

/// An entity of the scene, named by its index in the component storages.
#[derive(Clone, Copy, Debug, PartialEq, Eq, Structural)]
pub struct Entity(pub usize);

/// A camera: the projection from view space to clip space.
#[derive(Clone, Copy, Debug, PartialEq, Eq)]
pub struct Camera {
    pub proj: Matrix4,
}

/// Where an entity stands in the world: the matrix from its local space to
/// world space.
#[derive(Clone, Copy, Debug, PartialEq, Eq)]
pub struct GlobalTransform(pub Matrix4);

/// The scene-wide choice of the camera to render through.
#[derive(Clone, Copy, Debug, PartialEq, Eq, Structural)]
pub struct ActiveCamera {
    pub entity: Entity,
}

/// True when `entity` has both a camera and a transform, so that the scene
/// can be seen through it.
pub open spec fn is_view_pair(
    cameras: Map<usize, Camera>,
    transforms: Map<usize, GlobalTransform>,
    entity: Entity,
) -> bool {
    cameras.dom().contains(entity.0) && transforms.dom().contains(entity.0)
}

/// True when `entity` is the one and only entity of the scene with both a
/// camera and a transform.
pub open spec fn is_only_view_pair(
    cameras: Map<usize, Camera>,
    transforms: Map<usize, GlobalTransform>,
    entity: Entity,
) -> bool {
    &&& is_view_pair(cameras, transforms, entity)
    &&& forall|other: Entity| #[trigger]
        is_view_pair(cameras, transforms, other) ==> other == entity
}

/// True when an active camera is set and names an entity with both a camera
/// and a transform.
pub open spec fn active_is_valid(
    active: Option<ActiveCamera>,
    cameras: Map<usize, Camera>,
    transforms: Map<usize, GlobalTransform>,
) -> bool {
    active matches Some(a) && is_view_pair(cameras, transforms, a.entity)
}

/// Picks the camera and transform to render a frame through.
///
/// The active camera wins when it names an entity with both a camera and a
/// transform. Failing that, a scene with exactly one such entity is seen
/// through that one. Any other scene has no camera, and a pass that gets
/// `None` draws with identity matrices; it does not skip the draw.
pub fn get_camera<'a>(
    active: Option<ActiveCamera>,
    cameras: &'a Storage<Camera>,
    transforms: &'a Storage<GlobalTransform>,
) -> (r: Option<(&'a Camera, &'a GlobalTransform)>)
    ensures
        active_is_valid(active, cameras@, transforms@) ==> r == Some(
            (&cameras@[active->0.entity.0], &transforms@[active->0.entity.0]),
        ),
        !active_is_valid(active, cameras@, transforms@) ==> forall|e: Entity|
            is_only_view_pair(cameras@, transforms@, e) ==> r == Some(
                (&cameras@[e.0], &transforms@[e.0]),
            ),
        !active_is_valid(active, cameras@, transforms@) && !(exists|e: Entity|
            is_only_view_pair(cameras@, transforms@, e)) ==> r is None,
{
    if let Some(a) = active {
        let cam = cameras.get(a.entity.0);
        let transform = transforms.get(a.entity.0);
        if let Some(c) = cam {
            if let Some(t) = transform {
                return Some((c, t));
            }
        }
    }
    let n = if cameras.slots.len() < transforms.slots.len() {
        cameras.slots.len()
    } else {
        transforms.slots.len()
    };
    let mut found: Option<usize> = None;
    let mut i: usize = 0;
    while i < n
        invariant
            i <= n,
            !active_is_valid(active, cameras@, transforms@),
            n <= cameras.slots@.len(),
            n <= transforms.slots@.len(),
            n == cameras.slots@.len() || n == transforms.slots@.len(),
            found matches Some(k) ==> k < i && is_view_pair(cameras@, transforms@, Entity(k)),
            forall|j: usize|
                j < i && #[trigger] is_view_pair(cameras@, transforms@, Entity(j)) ==> found
                    == Some(j),
        decreases n - i,
    {
        if cameras.slots[i].is_some() && transforms.slots[i].is_some() {
            if found.is_some() {
                proof {
                    let k = found->0;
                    assert forall|e: Entity| !is_only_view_pair(cameras@, transforms@, e) by {
                        if is_only_view_pair(cameras@, transforms@, e) {
                            assert(is_view_pair(cameras@, transforms@, Entity(k)));
                            assert(is_view_pair(cameras@, transforms@, Entity(i)));
                        }
                    }
                }
                return None;
            }
            found = Some(i);
        }
        i += 1;
    }
    match found {
        Some(k) => {
            proof {
                assert forall|other: Entity| #[trigger]
                    is_view_pair(cameras@, transforms@, other) implies other == Entity(k) by {
                    assert(other.0 < n);
                }
                assert(is_only_view_pair(cameras@, transforms@, Entity(k)));
                assert(is_view_pair(cameras@, transforms@, Entity(k)));
            }
            let c = cameras.get(k);
            let t = transforms.get(k);
            Some((c.unwrap(), t.unwrap()))
        },
        None => {
            proof {
                assert forall|e: Entity| !is_only_view_pair(cameras@, transforms@, e) by {
                    if is_view_pair(cameras@, transforms@, e) {
                        assert(e.0 < n);
                        assert(is_view_pair(cameras@, transforms@, Entity(e.0)));
                    }
                }
            }
            None
        },
    }
}

} // verus!
