use clay::class::{Class, Instance, MapClass, MaterialClass, ObjectClass, ShapeClass, ViewClass};
use clay::geometry::{Geometry, Sphere as Ball};
use clay::map::Affine;
use clay::material::{Colored, Luminous, Material, Reflective};
use clay::object::Covered;
use clay::pack::{Float3, Mat3, Pack};
use clay::shape::{Select, Shape, ShapeMapper, Sphere};

fn f3(x: f32, y: f32, z: f32) -> Float3 {
    Float3 { x: x.to_bits(), y: y.to_bits(), z: z.to_bits() }
}

fn ball(x: f32, y: f32, z: f32, r: f32) -> Ball {
    Ball::new(f3(x, y, z), r.to_bits())
}

fn scaled(s: f32, shift: Float3) -> Affine {
    Affine::from(
        Mat3 { c0: f3(s, 0.0, 0.0), c1: f3(0.0, s, 0.0), c2: f3(0.0, 0.0, s) },
        shift,
    )
}

fn packed<T: Pack>(x: &T) -> (Vec<i32>, Vec<u32>) {
    let mut ints = Vec::new();
    let mut floats = Vec::new();
    x.pack(&mut ints, &mut floats);
    (ints, floats)
}

#[test]
fn class_names_and_methods() {
    assert_eq!(ShapeClass::name(), "shape");
    assert_eq!(ShapeClass::methods(), vec!["hit".to_string()]);
    assert_eq!(MaterialClass::name(), "material");
    assert_eq!(MaterialClass::methods(), vec!["emit".to_string()]);
    assert_eq!(MapClass::name(), "map");
    assert_eq!(MapClass::methods(), vec!["rel".to_string(), "abs".to_string()]);
    assert_eq!(ObjectClass::name(), "object");
    assert_eq!(ObjectClass::methods(), vec!["hit".to_string(), "emit".to_string()]);
    assert_eq!(ViewClass::name(), "view");
}

#[test]
fn instance_names() {
    assert_eq!(<Sphere as Instance<ShapeClass>>::inst_name(), "sphere");
    assert_eq!(<Luminous as Instance<MaterialClass>>::inst_name(), "luminous");
    assert_eq!(<Reflective as Instance<MaterialClass>>::inst_name(), "reflective");
    assert_eq!(<Affine as Instance<MapClass>>::inst_name(), "affine");
    assert_eq!(
        <ShapeMapper<Sphere, Affine> as Instance<ShapeClass>>::inst_name(),
        "mapper_sphere_affine"
    );
    assert_eq!(
        <Covered<Sphere, Reflective> as Instance<ObjectClass>>::inst_name(),
        "covered_sphere_reflective"
    );
    assert_eq!(
        <Select<Sphere, Ball> as Instance<ShapeClass>>::inst_name(),
        "select_sphere_geometry_sphere"
    );
    assert_eq!(<Colored<Luminous> as Instance<MaterialClass>>::inst_name(), "colored_luminous");
}

#[test]
fn ball_packs_center_then_radius() {
    let b = ball(1.0, 2.0, 3.0, 0.5);
    let (ints, floats) = packed(&b);
    assert!(ints.is_empty());
    assert_eq!(
        floats,
        vec![1.0f32.to_bits(), 2.0f32.to_bits(), 3.0f32.to_bits(), 0.5f32.to_bits()]
    );
    assert_eq!(Ball::size_int(), 0);
    assert_eq!(Ball::size_float(), 4);
    assert_eq!(Ball::unpack(&ints, &floats), Some(b));
    assert_eq!(Ball::ocl_hit_fn(), "sphere_hit");
    assert_eq!(b.bounds(), Some(b));
}

#[test]
fn round_trip_every_component() {
    let s = Sphere::new();
    let (i, f) = packed(&s);
    assert_eq!(Sphere::unpack(&i, &f), Some(s));

    let a = scaled(2.0, f3(1.0, -1.0, 0.25));
    let (i, f) = packed(&a);
    assert_eq!(f.len(), 12);
    assert_eq!(f[0], 2.0f32.to_bits());
    assert_eq!(f[9], 1.0f32.to_bits());
    assert_eq!(f[11], 0.25f32.to_bits());
    assert_eq!(Affine::unpack(&i, &f), Some(a));

    let m = Sphere::new().map(scaled(0.5, f3(0.0, 1.0, 0.5)));
    let (i, f) = packed(&m);
    assert_eq!(ShapeMapper::<Sphere, Affine>::unpack(&i, &f), Some(m));

    let c = Reflective {}.color_with(f3(0.9, 0.5, 0.5));
    let (i, f) = packed(&c);
    assert_eq!(f, vec![0.9f32.to_bits(), 0.5f32.to_bits(), 0.5f32.to_bits()]);
    assert_eq!(Colored::<Reflective>::unpack(&i, &f), Some(c));

    let o = ball(0.0, 0.0, 1.0, 2.0).cover(Luminous {});
    let (i, f) = packed(&o);
    assert_eq!(Covered::<Ball, Luminous>::unpack(&i, &f), Some(o));
}

#[test]
fn sizes_match_written_slots() {
    let x = ball(1.0, 1.0, 1.0, 1.0);
    let y = ball(-5.0, 7.5, 0.0, 3.0);
    for b in [x, y] {
        let (i, f) = packed(&b);
        assert_eq!(i.len(), Ball::size_int());
        assert_eq!(f.len(), Ball::size_float());
    }
    let m = ShapeMapper { shape: Sphere::new(), map: scaled(3.0, f3(0.0, 0.0, 0.0)) };
    let (i, f) = packed(&m);
    assert_eq!(i.len(), ShapeMapper::<Sphere, Affine>::size_int());
    assert_eq!(f.len(), ShapeMapper::<Sphere, Affine>::size_float());
    assert_eq!(f.len(), 12);
}

#[test]
fn covered_layout_is_shape_then_material() {
    type Obj = Covered<Ball, Colored<Luminous>>;
    assert_eq!(Obj::size_int(), Ball::size_int() + Colored::<Luminous>::size_int());
    assert_eq!(Obj::size_float(), Ball::size_float() + Colored::<Luminous>::size_float());
    assert_eq!(Obj::size_float(), 7);
    let o = Covered::new(ball(1.0, 2.0, 3.0, 4.0), Luminous {}.color_with(f3(0.1, 0.2, 0.3)));
    let (i, f) = packed(&o);
    assert_eq!(Ball::unpack(&i[0..0], &f[0..4]), Some(o.shape));
    assert_eq!(Colored::<Luminous>::unpack(&i[0..0], &f[4..7]), Some(o.material.clone()));
    assert_eq!(Obj::unpack(&i, &f), Some(o));
}

#[test]
fn selector_tag_and_padding() {
    type Sel = Select<Sphere, Ball>;
    assert_eq!(Sel::size_int(), 1);
    assert_eq!(Sel::size_float(), 4);
    let a: Sel = Select::First(Sphere::new());
    let (i, f) = packed(&a);
    assert_eq!(i, vec![0]);
    assert_eq!(f, vec![0, 0, 0, 0]);
    assert_eq!(a.tag(), 0);
    assert_eq!(Sel::unpack(&i, &f), Some(a));

    let b: Sel = Select::Second(ball(1.0, 2.0, 3.0, 0.5));
    let (i, f) = packed(&b);
    assert_eq!(i, vec![1]);
    assert_eq!(f.len(), 4);
    assert_eq!(b.tag(), 1);
    assert_eq!(Sel::unpack(&i, &f), Some(b));
}

#[test]
fn selector_unknown_tag_reads_nothing() {
    type Sel = Select<Sphere, Ball>;
    assert_eq!(Sel::unpack(&[2], &[0, 0, 0, 0]), None);
    assert_eq!(Sel::unpack(&[-1], &[0, 0, 0, 0]), None);
}

#[test]
fn selector_of_mapped_shapes() {
    type Sel = Select<ShapeMapper<Sphere, Affine>, Ball>;
    assert_eq!(Sel::size_int(), 1);
    assert_eq!(Sel::size_float(), 12);
    let b: Sel = Select::Second(ball(1.0, 2.0, 3.0, 0.5));
    let (i, f) = packed(&b);
    assert_eq!(i, vec![1]);
    assert_eq!(f.len(), 12);
    assert_eq!(&f[4..], &[0u32; 8][..]);
    assert_eq!(Sel::unpack(&i, &f), Some(b));
}
