use sky_pass::cam::{get_camera, ActiveCamera, Camera, Entity, GlobalTransform};
use sky_pass::matrix::Matrix4;
use sky_pass::storage::Storage;

fn matrix(tag: u32) -> Matrix4 {
    let mut m = Matrix4::identity();
    m.m[12] = tag;
    m
}

fn scene(cameras: &[usize], transforms: &[usize]) -> (Storage<Camera>, Storage<GlobalTransform>) {
    let mut c = Storage::new();
    for &id in cameras {
        c.insert(id, Camera { proj: matrix(100 + id as u32) });
    }
    let mut t = Storage::new();
    for &id in transforms {
        t.insert(id, GlobalTransform(matrix(200 + id as u32)));
    }
    (c, t)
}

#[test]
fn active_camera_with_both_components_is_returned() {
    let (c, t) = scene(&[1, 4], &[1, 4, 5]);
    let active = Some(ActiveCamera { entity: Entity(4) });
    let (cam, tr) = get_camera(active, &c, &t).expect("camera");
    assert_eq!(cam.proj.m[12], 104);
    assert_eq!(tr.0.m[12], 204);
}

#[test]
fn active_camera_wins_over_other_pairs() {
    let (c, t) = scene(&[0, 2, 7], &[0, 2, 7]);
    let active = Some(ActiveCamera { entity: Entity(2) });
    let (cam, tr) = get_camera(active, &c, &t).expect("camera");
    assert_eq!(cam.proj.m[12], 102);
    assert_eq!(tr.0.m[12], 202);
}

#[test]
fn single_pair_is_used_without_active_camera() {
    let (c, t) = scene(&[3, 6], &[6, 9]);
    let (cam, tr) = get_camera(None, &c, &t).expect("camera");
    assert_eq!(cam.proj.m[12], 106);
    assert_eq!(tr.0.m[12], 206);
}

#[test]
fn single_pair_is_used_when_active_camera_has_no_transform() {
    let (c, t) = scene(&[3, 6], &[6]);
    let active = Some(ActiveCamera { entity: Entity(3) });
    let (cam, tr) = get_camera(active, &c, &t).expect("camera");
    assert_eq!(cam.proj.m[12], 106);
    assert_eq!(tr.0.m[12], 206);
}

#[test]
fn single_pair_is_used_when_active_camera_is_out_of_range() {
    let (c, t) = scene(&[0], &[0]);
    let active = Some(ActiveCamera { entity: Entity(50) });
    let (cam, tr) = get_camera(active, &c, &t).expect("camera");
    assert_eq!(cam.proj.m[12], 100);
    assert_eq!(tr.0.m[12], 200);
}

#[test]
fn two_pairs_without_active_camera_give_nothing() {
    let (c, t) = scene(&[1, 2], &[1, 2]);
    assert!(get_camera(None, &c, &t).is_none());
}

#[test]
fn two_pairs_with_invalid_active_camera_give_nothing() {
    let (c, t) = scene(&[1, 2, 3], &[1, 2]);
    let active = Some(ActiveCamera { entity: Entity(3) });
    assert!(get_camera(active, &c, &t).is_none());
}

#[test]
fn no_pair_gives_nothing() {
    let (c, t) = scene(&[1, 2], &[3, 4]);
    assert!(get_camera(None, &c, &t).is_none());
    let active = Some(ActiveCamera { entity: Entity(1) });
    assert!(get_camera(active, &c, &t).is_none());
}

#[test]
fn empty_scene_gives_nothing() {
    let (c, t) = scene(&[], &[]);
    assert!(get_camera(None, &c, &t).is_none());
    assert!(get_camera(Some(ActiveCamera { entity: Entity(0) }), &c, &t).is_none());
}

#[test]
fn storage_insert_returns_previous_value() {
    let mut s: Storage<u32> = Storage::new();
    assert_eq!(s.get(0), None);
    assert_eq!(s.insert(5, 10), None);
    assert_eq!(s.insert(5, 11), Some(10));
    assert_eq!(s.get(5), Some(&11));
    assert_eq!(s.get(4), None);
    assert_eq!(s.get(6), None);
    assert_eq!(s.insert(2, 7), None);
    assert_eq!(s.get(2), Some(&7));
    assert_eq!(s.get(5), Some(&11));
}
