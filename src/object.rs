use vstd::prelude::*;

use crate::assembly::{
    Assembly, compose_name, compose_name_of, glue, glue_source, lemma_add_all_concat,
};
use crate::class::{Instance, ObjectClass};
use crate::material::Material;
use crate::pack::Pack;
use crate::shape::Shape;

verus! {

/// A shape covered with a material: an object of a scene.
/// Packed as the shape's slots, then the material's.
#[derive(Clone, Debug, PartialEq, Eq)]
pub struct Covered<S: Shape, M: Material> {
    pub shape: S,
    pub material: M,
}

impl<S: Shape, M: Material> Covered<S, M> {
    /// Covers `shape` with `material`.
    pub fn new(shape: S, material: M) -> (r: Covered<S, M>)
        ensures
            r.shape == shape,
            r.material == material,
    {
        Covered { shape, material }
    }
}

impl<S: Shape, M: Material> Instance<ObjectClass> for Covered<S, M> {
    open spec fn spec_inst_name() -> Seq<char> {
        compose_name("covered_"@, S::spec_inst_name(), M::spec_inst_name())
    }

    open spec fn spec_fragments() -> Seq<Seq<char>> {
        S::spec_fragments() + M::spec_fragments() + seq![
            glue(
                Self::spec_inst_name(),
                S::spec_inst_name(),
                M::spec_inst_name(),
                "clay_core/object/covered.inl"@,
            ),
        ]
    }

    fn inst_name() -> (r: String) {
        let s = S::inst_name();
        let m = M::inst_name();
        compose_name_of("covered_", s.as_str(), m.as_str())
    }

    fn source(ctx: &mut Assembly) {
        S::source(ctx);
        M::source(ctx);
        let name = Self::inst_name();
        let s = S::inst_name();
        let m = M::inst_name();
        let frag = glue_source(
            name.as_str(),
            s.as_str(),
            m.as_str(),
            "clay_core/object/covered.inl",
        );
        ctx.add(frag);
        proof {
            lemma_add_all_concat(old(ctx)@, S::spec_fragments(), M::spec_fragments());
            lemma_add_all_concat(
                old(ctx)@,
                S::spec_fragments() + M::spec_fragments(),
                seq![frag@],
            );
        }
    }
}

impl<S: Shape, M: Material> Pack for Covered<S, M> {
    open spec fn spec_size_int() -> nat {
        S::spec_size_int() + M::spec_size_int()
    }

    open spec fn spec_size_float() -> nat {
        S::spec_size_float() + M::spec_size_float()
    }

    open spec fn spec_ints(&self) -> Seq<i32> {
        self.shape.spec_ints() + self.material.spec_ints()
    }

    open spec fn spec_floats(&self) -> Seq<u32> {
        self.shape.spec_floats() + self.material.spec_floats()
    }

    open spec fn spec_unpack(ints: Seq<i32>, floats: Seq<u32>) -> Option<Self> {
        let ni = S::spec_size_int() as int;
        let nf = S::spec_size_float() as int;
        match (
            S::spec_unpack(ints.take(ni), floats.take(nf)),
            M::spec_unpack(ints.skip(ni), floats.skip(nf)),
        ) {
            (Some(s), Some(m)) => Some(Covered { shape: s, material: m }),
            _ => None,
        }
    }

    proof fn lemma_layout(x: &Self) {
        S::lemma_layout(&x.shape);
        M::lemma_layout(&x.material);
    }

    proof fn lemma_round_trip(x: Self) {
        S::lemma_layout(&x.shape);
        M::lemma_layout(&x.material);
        S::lemma_round_trip(x.shape);
        M::lemma_round_trip(x.material);
        let ni = S::spec_size_int() as int;
        let nf = S::spec_size_float() as int;
        assert(x.spec_ints().take(ni) =~= x.shape.spec_ints());
        assert(x.spec_ints().skip(ni) =~= x.material.spec_ints());
        assert(x.spec_floats().take(nf) =~= x.shape.spec_floats());
        assert(x.spec_floats().skip(nf) =~= x.material.spec_floats());
    }

    fn size_int() -> (r: usize) {
        S::size_int() + M::size_int()
    }

    fn size_float() -> (r: usize) {
        S::size_float() + M::size_float()
    }

    fn pack(&self, buffer_int: &mut Vec<i32>, buffer_float: &mut Vec<u32>) {
        self.shape.pack(buffer_int, buffer_float);
        self.material.pack(buffer_int, buffer_float);
        assert(buffer_int@ =~= old(buffer_int)@ + self.spec_ints());
        assert(buffer_float@ =~= old(buffer_float)@ + self.spec_floats());
    }

    fn unpack(buffer_int: &[i32], buffer_float: &[u32]) -> (r: Option<Self>) {
        let ti = buffer_int.len();
        let tf = buffer_float.len();
        let ni = S::size_int();
        let nf = S::size_float();
        let s = S::unpack(&buffer_int[0..ni], &buffer_float[0..nf]);
        let m = M::unpack(&buffer_int[ni..ti], &buffer_float[nf..tf]);
        assert(buffer_int@.subrange(0, ni as int) =~= buffer_int@.take(ni as int));
        assert(buffer_int@.subrange(ni as int, ti as int) =~= buffer_int@.skip(ni as int));
        assert(buffer_float@.subrange(0, nf as int) =~= buffer_float@.take(nf as int));
        assert(buffer_float@.subrange(nf as int, tf as int) =~= buffer_float@.skip(nf as int));
        match (s, m) {
            (Some(s), Some(m)) => Some(Covered { shape: s, material: m }),
            _ => None,
        }
    }
}

/// The slots of a covered object split into those of its shape, then those
/// of its material: the integer and float slot counts are the sums of the
/// two, and each part reads back as the part it came from.
pub proof fn lemma_covered_split<S: Shape, M: Material>(x: Covered<S, M>)
    ensures
        Covered::<S, M>::spec_size_int() == S::spec_size_int() + M::spec_size_int(),
        Covered::<S, M>::spec_size_float() == S::spec_size_float() + M::spec_size_float(),
        x.spec_ints().take(S::spec_size_int() as int) == x.shape.spec_ints(),
        x.spec_ints().skip(S::spec_size_int() as int) == x.material.spec_ints(),
        x.spec_floats().take(S::spec_size_float() as int) == x.shape.spec_floats(),
        x.spec_floats().skip(S::spec_size_float() as int) == x.material.spec_floats(),
        S::spec_unpack(
            x.spec_ints().take(S::spec_size_int() as int),
            x.spec_floats().take(S::spec_size_float() as int),
        ) == Some(x.shape),
        M::spec_unpack(
            x.spec_ints().skip(S::spec_size_int() as int),
            x.spec_floats().skip(S::spec_size_float() as int),
        ) == Some(x.material),
{
    S::lemma_layout(&x.shape);
    M::lemma_layout(&x.material);
    S::lemma_round_trip(x.shape);
    M::lemma_round_trip(x.material);
    let ni = S::spec_size_int() as int;
    let nf = S::spec_size_float() as int;
    assert(x.spec_ints().take(ni) =~= x.shape.spec_ints());
    assert(x.spec_ints().skip(ni) =~= x.material.spec_ints());
    assert(x.spec_floats().take(nf) =~= x.shape.spec_floats());
    assert(x.spec_floats().skip(nf) =~= x.material.spec_floats());
}

} // verus!
