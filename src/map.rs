use vstd::prelude::*;

use crate::assembly::Assembly;
use crate::class::{Instance, MapClass};
use crate::pack::{Float3, Mat3, Pack};

verus! {

/// A transform of points and directions, with packed parameters.
pub trait Transform: Pack + Instance<MapClass> {

}

/// Affine transform: a linear part, then a shift.
/// Packed as 0 integer slots and 12 float slots: the matrix by columns,
/// then the shift.
#[derive(Clone, Copy, Debug, PartialEq, Eq, Structural)]
pub struct Affine {
    pub linear: Mat3,
    pub shift: Float3,
}

impl Affine {
    /// An affine transform of a linear part and a shift.
    pub fn from(linear: Mat3, shift: Float3) -> (r: Affine)
        ensures
            r.linear == linear,
            r.shift == shift,
    {
        Affine { linear, shift }
    }
}

impl Transform for Affine {

}

impl Instance<MapClass> for Affine {
    open spec fn spec_inst_name() -> Seq<char> {
        "affine"@
    }

    open spec fn spec_fragments() -> Seq<Seq<char>> {
        seq!["// affine\n#include <clay_core/map/affine.h>"@]
    }

    fn inst_name() -> (r: String) {
        String::from_str("affine")
    }

    fn source(ctx: &mut Assembly) {
        ctx.add(String::from_str("// affine\n#include <clay_core/map/affine.h>"));
    }
}

impl Pack for Affine {
    open spec fn spec_size_int() -> nat {
        0
    }

    open spec fn spec_size_float() -> nat {
        12
    }

    open spec fn spec_ints(&self) -> Seq<i32> {
        Seq::empty()
    }

    open spec fn spec_floats(&self) -> Seq<u32> {
        self.linear.spec_slots() + self.shift.spec_slots()
    }

    open spec fn spec_unpack(ints: Seq<i32>, floats: Seq<u32>) -> Option<Self> {
        Some(Affine { linear: Mat3::spec_at(floats, 0), shift: Float3::spec_at(floats, 9) })
    }

    proof fn lemma_layout(x: &Self) {
    }

    proof fn lemma_round_trip(x: Self) {
        let f = x.spec_floats();
        assert(Mat3::spec_at(f, 0) == x.linear);
        assert(Float3::spec_at(f, 9) == x.shift);
    }

    fn size_int() -> (r: usize) {
        0
    }

    fn size_float() -> (r: usize) {
        12
    }

    fn pack(&self, buffer_int: &mut Vec<i32>, buffer_float: &mut Vec<u32>) {
        let ghost before = buffer_float@;
        self.linear.push_to(buffer_float);
        self.shift.push_to(buffer_float);
        assert(buffer_float@ =~= before + self.spec_floats());
        assert(buffer_int@ =~= old(buffer_int)@ + self.spec_ints());
    }

    fn unpack(buffer_int: &[i32], buffer_float: &[u32]) -> (r: Option<Self>) {
        Some(Affine { linear: Mat3::read_from(buffer_float, 0), shift: Float3::read_from(buffer_float, 9) })
    }
}

} // verus!
