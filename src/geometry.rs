use vstd::prelude::*;

use crate::assembly::Assembly;
use crate::class::{Instance, ShapeClass};
use crate::pack::{Float3, Pack};
use crate::shape::Shape;

verus! {

/// A geometric body with a device-side hit routine and a bounding sphere.
pub trait Geometry: Pack + Sized {
    /// Name of the device-side hit routine.
    spec fn spec_hit_fn() -> Seq<char>;

    /// Name of the device-side hit routine.
    fn ocl_hit_fn() -> (r: &'static str)
        ensures
            r@ == Self::spec_hit_fn(),
    ;

    /// A sphere that encloses the body, if the body is bounded.
    spec fn spec_bounds(&self) -> Option<Sphere>;

    /// A sphere that encloses the body, if the body is bounded.
    fn bounds(&self) -> (r: Option<Sphere>)
        ensures
            r == self.spec_bounds(),
    ;
}

/// Spherical geometry. Packed as 0 integer slots and 4 float slots: the
/// center x, y, z, then the radius.
#[derive(Clone, Copy, Debug, PartialEq, Eq, Structural)]
pub struct Sphere {
    /// Position of the center.
    pub pos: Float3,
    /// Radius, as a float bit pattern.
    pub rad: u32,
}

impl Sphere {
    /// A sphere with this center and radius.
    pub fn new(pos: Float3, rad: u32) -> (r: Sphere)
        ensures
            r.pos == pos,
            r.rad == rad,
    {
        Sphere { pos, rad }
    }
}

impl Geometry for Sphere {
    open spec fn spec_hit_fn() -> Seq<char> {
        "sphere_hit"@
    }

    open spec fn spec_bounds(&self) -> Option<Sphere> {
        Some(*self)
    }

    fn ocl_hit_fn() -> (r: &'static str) {
        "sphere_hit"
    }

    fn bounds(&self) -> (r: Option<Sphere>) {
        Some(*self)
    }
}

impl Shape for Sphere {

}

impl Instance<ShapeClass> for Sphere {
    open spec fn spec_inst_name() -> Seq<char> {
        "geometry_sphere"@
    }

    open spec fn spec_fragments() -> Seq<Seq<char>> {
        seq!["// geometry_sphere\n#include <clay_core/geometry/sphere.h>"@]
    }

    fn inst_name() -> (r: String) {
        String::from_str("geometry_sphere")
    }

    fn source(ctx: &mut Assembly) {
        ctx.add(String::from_str("// geometry_sphere\n#include <clay_core/geometry/sphere.h>"));
    }
}

impl Pack for Sphere {
    open spec fn spec_size_int() -> nat {
        0
    }

    open spec fn spec_size_float() -> nat {
        4
    }

    open spec fn spec_ints(&self) -> Seq<i32> {
        Seq::empty()
    }

    open spec fn spec_floats(&self) -> Seq<u32> {
        self.pos.spec_slots().push(self.rad)
    }

    open spec fn spec_unpack(ints: Seq<i32>, floats: Seq<u32>) -> Option<Self> {
        Some(Sphere { pos: Float3::spec_at(floats, 0), rad: floats[3] })
    }

    proof fn lemma_layout(x: &Self) {
    }

    proof fn lemma_round_trip(x: Self) {
        assert(Float3::spec_at(x.spec_floats(), 0) == x.pos);
    }

    fn size_int() -> (r: usize) {
        0
    }

    fn size_float() -> (r: usize) {
        4
    }

    fn pack(&self, buffer_int: &mut Vec<i32>, buffer_float: &mut Vec<u32>) {
        self.pos.push_to(buffer_float);
        buffer_float.push(self.rad);
        assert(buffer_int@ =~= old(buffer_int)@ + self.spec_ints());
        assert(buffer_float@ =~= old(buffer_float)@ + self.spec_floats());
    }

    fn unpack(buffer_int: &[i32], buffer_float: &[u32]) -> (r: Option<Self>) {
        let pos = Float3::read_from(buffer_float, 0);
        let rad = buffer_float[3];
        Some(Sphere { pos, rad })
    }
}

} // verus!
