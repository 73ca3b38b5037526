use clay::geometry::Sphere as Ball;
use clay::material::Luminous;
use clay::object::Covered;
use clay::pack::{Float3, Pack};
use clay::scene::ListScene;
use clay::shape::{Select, Shape, Sphere};

fn ball(x: f32, r: f32) -> Ball {
    Ball::new(Float3 { x: x.to_bits(), y: 0, z: 0 }, r.to_bits())
}

#[test]
fn scene_buffers_concatenate_objects() {
    let objs = vec![ball(1.0, 1.0).cover(Luminous {}), ball(2.0, 0.5).cover(Luminous {})];
    let scene = ListScene::new(objs.clone());
    assert_eq!(scene.count(), 2);
    assert_eq!(scene.buffer_int().len(), 0);
    assert_eq!(scene.buffer_float().len(), 8);
    assert_eq!(scene.buffer_float()[4], 2.0f32.to_bits());
    assert_eq!(scene.buffer_float()[7], 0.5f32.to_bits());
    assert_eq!(scene.float_offset(1), 4);
    assert_eq!(scene.int_offset(1), 0);
    assert_eq!(scene.read_back(0), Some(objs[0].clone()));
    assert_eq!(scene.read_back(1), Some(objs[1].clone()));
}

#[test]
fn empty_scene_has_empty_buffers() {
    let scene: ListScene<Covered<Ball, Luminous>> = ListScene::new(Vec::new());
    assert_eq!(scene.count(), 0);
    assert!(scene.buffer_int().is_empty());
    assert!(scene.buffer_float().is_empty());
    assert_eq!(scene.float_offset(0), 0);
}

#[test]
fn selector_scene_size_independent_of_variants() {
    type Obj = Covered<Select<Sphere, Ball>, Luminous>;
    let objs: Vec<Obj> = vec![
        Select::First(Sphere::new()).cover(Luminous {}),
        Select::Second(ball(1.0, 1.0)).cover(Luminous {}),
    ];
    let scene = ListScene::new(objs);
    assert_eq!(scene.buffer_int().len(), 2 * (1 + 0));
    assert_eq!(scene.buffer_float().len(), 2 * 4);
    assert_eq!(scene.buffer_int(), &vec![0, 1]);

    let same: Vec<Obj> = vec![
        Select::First(Sphere::new()).cover(Luminous {}),
        Select::First(Sphere::new()).cover(Luminous {}),
    ];
    let other = ListScene::new(same);
    assert_eq!(other.buffer_int().len(), scene.buffer_int().len());
    assert_eq!(other.buffer_float().len(), scene.buffer_float().len());
}

#[test]
fn removing_an_object_shifts_later_offsets() {
    let objs = vec![
        ball(1.0, 1.0).cover(Luminous {}),
        ball(2.0, 1.0).cover(Luminous {}),
        ball(3.0, 1.0).cover(Luminous {}),
    ];
    let mut scene = ListScene::new(objs.clone());
    let before = scene.buffer_float().clone();
    assert_eq!(before.len(), 12);
    let removed = scene.remove(1);
    assert_eq!(removed, objs[1]);
    let after = scene.buffer_float().clone();
    assert_eq!(after.len(), before.len() - Covered::<Ball, Luminous>::size_float());
    assert_eq!(&after[0..4], &before[0..4]);
    assert_eq!(&after[4..8], &before[8..12]);
    assert_eq!(scene.float_offset(1), 4);
    assert_eq!(scene.read_back(1), Some(objs[2].clone()));
}
