use vstd::prelude::*;

use crate::assembly::{
Assembly, glue, glue_source, lemma_add_all_concat};
use crate::class::{Instance, MaterialClass};
use crate::pack::{Float3, Pack};

verus! {

/// Material of an object surface: how a ray bounces off it (color,
/// specularity, opacity, diffusion, radiance).
pub trait Material: Pack + Instance<MaterialClass> + Sized {
    /// Applies a color filter to the material.
    fn color_with(self, color: Float3) -> (r: Colored<Self>)
        ensures
            r.material == self,
            r.color == color,
    {
        Colored { material: self, color }
    }
}

/// A surface that emits light. It has no parameters.
#[derive(Clone, Copy, Debug, Default, PartialEq, Eq, Structural)]
pub struct Luminous {}

impl Material for Luminous {

}

impl Instance<MaterialClass> for Luminous {
    open spec fn spec_inst_name() -> Seq<char> {
        "luminous"@
    }

    open spec fn spec_fragments() -> Seq<Seq<char>> {
        seq!["// luminous\n#include <clay_core/material/luminous.h>"@]
    }

    fn inst_name() -> (r: String) {
        String::from_str("luminous")
    }

    fn source(ctx: &mut Assembly) {
        ctx.add(String::from_str("// luminous\n#include <clay_core/material/luminous.h>"));
    }
}

impl Pack for Luminous {
    open spec fn spec_size_int() -> nat {
        0
    }

    open spec fn spec_size_float() -> nat {
        0
    }

    open spec fn spec_ints(&self) -> Seq<i32> {
        Seq::empty()
    }

    open spec fn spec_floats(&self) -> Seq<u32> {
        Seq::empty()
    }

    open spec fn spec_unpack(ints: Seq<i32>, floats: Seq<u32>) -> Option<Self> {
        Some(Luminous {  })
    }

    proof fn lemma_layout(x: &Self) {
    }

    proof fn lemma_round_trip(x: Self) {
    }

    fn size_int() -> (r: usize) {
        0
    }

    fn size_float() -> (r: usize) {
        0
    }

    fn pack(&self, buffer_int: &mut Vec<i32>, buffer_float: &mut Vec<u32>) {
        assert(buffer_int@ =~= old(buffer_int)@ + self.spec_ints());
        assert(buffer_float@ =~= old(buffer_float)@ + self.spec_floats());
    }

    fn unpack(buffer_int: &[i32], buffer_float: &[u32]) -> (r: Option<Self>) {
        Some(Luminous {  })
    }
}

/// A mirror surface. It has no parameters.
#[derive(Clone, Copy, Debug, Default, PartialEq, Eq, Structural)]
pub struct Reflective {}

impl Material for Reflective {

}

impl Instance<MaterialClass> for Reflective {
    open spec fn spec_inst_name() -> Seq<char> {
        "reflective"@
    }

    open spec fn spec_fragments() -> Seq<Seq<char>> {
        seq!["// reflective\n#include <clay_core/material/reflective.h>"@]
    }

    fn inst_name() -> (r: String) {
        String::from_str("reflective")
    }

    fn source(ctx: &mut Assembly) {
        ctx.add(String::from_str("// reflective\n#include <clay_core/material/reflective.h>"));
    }
}

impl Pack for Reflective {
    open spec fn spec_size_int() -> nat {
        0
    }

    open spec fn spec_size_float() -> nat {
        0
    }

    open spec fn spec_ints(&self) -> Seq<i32> {
        Seq::empty()
    }

    open spec fn spec_floats(&self) -> Seq<u32> {
        Seq::empty()
    }

    open spec fn spec_unpack(ints: Seq<i32>, floats: Seq<u32>) -> Option<Self> {
        Some(Reflective {  })
    }

    proof fn lemma_layout(x: &Self) {
    }

    proof fn lemma_round_trip(x: Self) {
    }

    fn size_int() -> (r: usize) {
        0
    }

    fn size_float() -> (r: usize) {
        0
    }

    fn pack(&self, buffer_int: &mut Vec<i32>, buffer_float: &mut Vec<u32>) {
        assert(buffer_int@ =~= old(buffer_int)@ + self.spec_ints());
        assert(buffer_float@ =~= old(buffer_float)@ + self.spec_floats());
    }

    fn unpack(buffer_int: &[i32], buffer_float: &[u32]) -> (r: Option<Self>) {
        Some(Reflective {  })
    }
}

/// A material under a color filter. Packed as the material's slots, then
/// the three float slots of the color.
#[derive(Clone, Debug, PartialEq, Eq)]
pub struct Colored<M: Material> {
    pub material: M,
    pub color: Float3,
}

impl<M: Material> Colored<M> {
    /// A material under a color filter.
    pub fn new(material: M, color: Float3) -> (r: Colored<M>)
        ensures
            r.material == material,
            r.color == color,
    {
        Colored { material, color }
    }
}

impl<M: Material> Material for Colored<M> {

}

impl<M: Material> Instance<MaterialClass> for Colored<M> {
    open spec fn spec_inst_name() -> Seq<char> {
        "colored_"@ + M::spec_inst_name()
    }

    open spec fn spec_fragments() -> Seq<Seq<char>> {
        M::spec_fragments() + seq![
            glue(
                Self::spec_inst_name(),
                M::spec_inst_name(),
                ""@,
                "clay_core/material/colored.inl"@,
            ),
        ]
    }

    fn inst_name() -> (r: String) {
        let m = M::inst_name();
        let mut r = String::from_str("colored_");
        r.append(m.as_str());
        r
    }

    fn source(ctx: &mut Assembly) {
        M::source(ctx);
        let name = Self::inst_name();
        let m = M::inst_name();
        let frag = glue_source(name.as_str(), m.as_str(), "", "clay_core/material/colored.inl");
        ctx.add(frag);
        proof {
            lemma_add_all_concat(old(ctx)@, M::spec_fragments(), seq![frag@]);
        }
    }
}

impl<M: Material> Pack for Colored<M> {
    open spec fn spec_size_int() -> nat {
        M::spec_size_int()
    }

    open spec fn spec_size_float() -> nat {
        M::spec_size_float() + 3
    }

    open spec fn spec_ints(&self) -> Seq<i32> {
        self.material.spec_ints()
    }

    open spec fn spec_floats(&self) -> Seq<u32> {
        self.material.spec_floats() + self.color.spec_slots()
    }

    open spec fn spec_unpack(ints: Seq<i32>, floats: Seq<u32>) -> Option<Self> {
        let n = M::spec_size_float() as int;
        match M::spec_unpack(ints, floats.take(n)) {
            Some(m) => Some(Colored { material: m, color: Float3::spec_at(floats, n) }),
            None => None,
        }
    }

    proof fn lemma_layout(x: &Self) {
        M::lemma_layout(&x.material);
    }

    proof fn lemma_round_trip(x: Self) {
        M::lemma_layout(&x.material);
        M::lemma_round_trip(x.material);
        let n = M::spec_size_float() as int;
        assert(x.spec_floats().take(n) =~= x.material.spec_floats());
        assert(Float3::spec_at(x.spec_floats(), n) == x.color);
    }

    fn size_int() -> (r: usize) {
        M::size_int()
    }

    fn size_float() -> (r: usize) {
        M::size_float() + 3
    }

    fn pack(&self, buffer_int: &mut Vec<i32>, buffer_float: &mut Vec<u32>) {
        self.material.pack(buffer_int, buffer_float);
        self.color.push_to(buffer_float);
        assert(buffer_float@ =~= old(buffer_float)@ + self.spec_floats());
    }

    fn unpack(buffer_int: &[i32], buffer_float: &[u32]) -> (r: Option<Self>) {
        let total = buffer_float.len();
        let n = M::size_float();
        let m = M::unpack(buffer_int, &buffer_float[0..n]);
        assert(buffer_float@.subrange(0, n as int) =~= buffer_float@.take(n as int));
        match m {
            Some(m) => Some(Colored { material: m, color: Float3::read_from(buffer_float, n) }),
            None => None,
        }
    }
}

} // verus!
