use clay::assembly::Assembly;
use clay::class::{Instance, ShapeClass};
use clay::geometry::Sphere as Ball;
use clay::map::Affine;
use clay::material::{Luminous, Reflective};
use clay::object::Covered;
use clay::shape::{Select, ShapeMapper, Sphere};
use clay::view::ProjView;
use clay::worker::{assemble, program_source};

fn count(text: &str, part: &str) -> usize {
    text.matches(part).count()
}

#[test]
fn assembly_drops_identical_fragments() {
    let mut ctx = Assembly::new();
    ctx.add("a".to_string());
    ctx.add("b".to_string());
    ctx.add("a".to_string());
    assert_eq!(ctx.len(), 2);
    assert_eq!(ctx.text(), "a\nb\n");
    assert!(ctx.contains(&"b".to_string()));
    assert!(!ctx.contains(&"c".to_string()));
}

#[test]
fn shared_fragment_appears_once() {
    type Obj = Covered<Select<Sphere, ShapeMapper<Sphere, Affine>>, Reflective>;
    let text = program_source::<Obj, ProjView>();
    assert_eq!(count(&text, "#include <clay_core/shape/sphere.h>"), 1);
    assert_eq!(count(&text, "#include <clay_core/map/affine.h>"), 1);
    assert_eq!(count(&text, "#include <clay_core/shape/select.inl>"), 1);
    assert_eq!(count(&text, "#include <clay_core/shape/mapper.inl>"), 1);
    assert_eq!(count(&text, "#include <clay_core/main.c>"), 1);
    assert!(text.ends_with("#include <clay_core/main.c>\n"));
    let ctx = assemble::<Obj, ProjView>();
    assert_eq!(ctx.len(), 9);
}

#[test]
fn source_twice_adds_nothing() {
    let mut ctx = Assembly::new();
    <ShapeMapper<Sphere, Affine> as Instance<ShapeClass>>::source(&mut ctx);
    let n = ctx.len();
    assert_eq!(n, 3);
    <ShapeMapper<Sphere, Affine> as Instance<ShapeClass>>::source(&mut ctx);
    assert_eq!(ctx.len(), n);
}

#[test]
fn mapper_fragment_names_its_parts() {
    let mut ctx = Assembly::new();
    <ShapeMapper<Sphere, Affine> as Instance<ShapeClass>>::source(&mut ctx);
    assert_eq!(
        ctx.fragment(2),
        "// mapper_sphere_affine\n#define __NAME__ mapper_sphere_affine\n#define __A__ sphere\n#define __B__ affine\n#include <clay_core/shape/mapper.inl>\n#undef __NAME__\n#undef __A__\n#undef __B__"
    );
}

#[test]
fn program_of_covered_balls() {
    let text = program_source::<Covered<Ball, Luminous>, ProjView>();
    assert!(text.starts_with("// geometry_sphere\n"));
    assert_eq!(count(&text, "#include <clay_core/view/proj_view.h>"), 1);
    assert_eq!(count(&text, "#include <clay_core/scene/list_scene.h>"), 1);
}
