use vstd::prelude::*;

use crate::assembly::{
    Assembly, compose_name, compose_name_of, glue, glue_source, lemma_add_all_concat,
};
use crate::class::{Instance, ShapeClass};
use crate::map::Transform;
use crate::material::Material;
use crate::object::Covered;
use crate::pack::Pack;

verus! {

/// Shape of an object: where a ray intersects it.
pub trait Shape: Pack + Instance<ShapeClass> + Sized {
    /// A new shape: this one under a transform (most often an affine
    /// transform of a unit shape).
    fn map<M: Transform>(self, map: M) -> (r: ShapeMapper<Self, M>)
        ensures
            r.shape == self,
            r.map == map,
    {
        ShapeMapper { shape: self, map }
    }

    /// An object: this shape covered with a material.
    fn cover<M: Material>(self, material: M) -> (r: Covered<Self, M>)
        ensures
            r.shape == self,
            r.material == material,
    {
        Covered { shape: self, material }
    }
}

/// Unit sphere: radius one, centered at the origin. It has no parameters;
/// a transform (see `Shape::map`) makes an arbitrary ellipsoid of it.
#[derive(Clone, Copy, Debug, Default, PartialEq, Eq, Structural)]
pub struct Sphere {}

impl Sphere {
    /// Creates a new unit sphere.
    pub fn new() -> (r: Sphere) {
        Sphere {  }
    }
}

impl Shape for Sphere {

}

impl Instance<ShapeClass> for Sphere {
    open spec fn spec_inst_name() -> Seq<char> {
        "sphere"@
    }

    open spec fn spec_fragments() -> Seq<Seq<char>> {
        seq!["// sphere\n#include <clay_core/shape/sphere.h>"@]
    }

    fn inst_name() -> (r: String) {
        String::from_str("sphere")
    }

    fn source(ctx: &mut Assembly) {
        ctx.add(String::from_str("// sphere\n#include <clay_core/shape/sphere.h>"));
    }
}

impl Pack for Sphere {
    open spec fn spec_size_int() -> nat {
        0
    }

    open spec fn spec_size_float() -> nat {
        0
    }

    open spec fn spec_ints(&self) -> Seq<i32> {
        Seq::empty()
    }

    open spec fn spec_floats(&self) -> Seq<u32> {
        Seq::empty()
    }

    open spec fn spec_unpack(ints: Seq<i32>, floats: Seq<u32>) -> Option<Self> {
        Some(Sphere {  })
    }

    proof fn lemma_layout(x: &Self) {
    }

    proof fn lemma_round_trip(x: Self) {
    }

    fn size_int() -> (r: usize) {
        0
    }

    fn size_float() -> (r: usize) {
        0
    }

    fn pack(&self, buffer_int: &mut Vec<i32>, buffer_float: &mut Vec<u32>) {
        assert(buffer_int@ =~= old(buffer_int)@ + self.spec_ints());
        assert(buffer_float@ =~= old(buffer_float)@ + self.spec_floats());
    }

    fn unpack(buffer_int: &[i32], buffer_float: &[u32]) -> (r: Option<Self>) {
        Some(Sphere {  })
    }
}

/// A shape under a transform. Packed as the shape's slots, then the
/// transform's.
#[derive(Clone, Debug, PartialEq, Eq)]
pub struct ShapeMapper<S: Shape, M: Transform> {
    pub shape: S,
    pub map: M,
}

impl<S: Shape, M: Transform> Shape for ShapeMapper<S, M> {

}

impl<S: Shape, M: Transform> Instance<ShapeClass> for ShapeMapper<S, M> {
    open spec fn spec_inst_name() -> Seq<char> {
        compose_name("mapper_"@, S::spec_inst_name(), M::spec_inst_name())
    }

    open spec fn spec_fragments() -> Seq<Seq<char>> {
        S::spec_fragments() + M::spec_fragments() + seq![
            glue(
                Self::spec_inst_name(),
                S::spec_inst_name(),
                M::spec_inst_name(),
                "clay_core/shape/mapper.inl"@,
            ),
        ]
    }

    fn inst_name() -> (r: String) {
        let s = S::inst_name();
        let m = M::inst_name();
        compose_name_of("mapper_", s.as_str(), m.as_str())
    }

    fn source(ctx: &mut Assembly) {
        S::source(ctx);
        M::source(ctx);
        let name = Self::inst_name();
        let s = S::inst_name();
        let m = M::inst_name();
        let frag = glue_source(name.as_str(), s.as_str(), m.as_str(), "clay_core/shape/mapper.inl");
        ctx.add(frag);
        proof {
            lemma_add_all_concat(old(ctx)@, S::spec_fragments(), M::spec_fragments());
            lemma_add_all_concat(
                old(ctx)@,
                S::spec_fragments() + M::spec_fragments(),
                seq![frag@],
            );
        }
    }
}

impl<S: Shape, M: Transform> Pack for ShapeMapper<S, M> {
    open spec fn spec_size_int() -> nat {
        S::spec_size_int() + M::spec_size_int()
    }

    open spec fn spec_size_float() -> nat {
        S::spec_size_float() + M::spec_size_float()
    }

    open spec fn spec_ints(&self) -> Seq<i32> {
        self.shape.spec_ints() + self.map.spec_ints()
    }

    open spec fn spec_floats(&self) -> Seq<u32> {
        self.shape.spec_floats() + self.map.spec_floats()
    }

    open spec fn spec_unpack(ints: Seq<i32>, floats: Seq<u32>) -> Option<Self> {
        let ni = S::spec_size_int() as int;
        let nf = S::spec_size_float() as int;
        match (
            S::spec_unpack(ints.take(ni), floats.take(nf)),
            M::spec_unpack(ints.skip(ni), floats.skip(nf)),
        ) {
            (Some(s), Some(m)) => Some(ShapeMapper { shape: s, map: m }),
            _ => None,
        }
    }

    proof fn lemma_layout(x: &Self) {
        S::lemma_layout(&x.shape);
        M::lemma_layout(&x.map);
    }

    proof fn lemma_round_trip(x: Self) {
        S::lemma_layout(&x.shape);
        M::lemma_layout(&x.map);
        S::lemma_round_trip(x.shape);
        M::lemma_round_trip(x.map);
        let ni = S::spec_size_int() as int;
        let nf = S::spec_size_float() as int;
        assert(x.spec_ints().take(ni) =~= x.shape.spec_ints());
        assert(x.spec_ints().skip(ni) =~= x.map.spec_ints());
        assert(x.spec_floats().take(nf) =~= x.shape.spec_floats());
        assert(x.spec_floats().skip(nf) =~= x.map.spec_floats());
    }

    fn size_int() -> (r: usize) {
        S::size_int() + M::size_int()
    }

    fn size_float() -> (r: usize) {
        S::size_float() + M::size_float()
    }

    fn pack(&self, buffer_int: &mut Vec<i32>, buffer_float: &mut Vec<u32>) {
        self.shape.pack(buffer_int, buffer_float);
        self.map.pack(buffer_int, buffer_float);
        assert(buffer_int@ =~= old(buffer_int)@ + self.spec_ints());
        assert(buffer_float@ =~= old(buffer_float)@ + self.spec_floats());
    }

    fn unpack(buffer_int: &[i32], buffer_float: &[u32]) -> (r: Option<Self>) {
        let ti = buffer_int.len();
        let tf = buffer_float.len();
        let ni = S::size_int();
        let nf = S::size_float();
        let s = S::unpack(&buffer_int[0..ni], &buffer_float[0..nf]);
        let m = M::unpack(&buffer_int[ni..ti], &buffer_float[nf..tf]);
        assert(buffer_int@.subrange(0, ni as int) =~= buffer_int@.take(ni as int));
        assert(buffer_int@.subrange(ni as int, ti as int) =~= buffer_int@.skip(ni as int));
        assert(buffer_float@.subrange(0, nf as int) =~= buffer_float@.take(nf as int));
        assert(buffer_float@.subrange(nf as int, tf as int) =~= buffer_float@.skip(nf as int));
        match (s, m) {
            (Some(s), Some(m)) => Some(ShapeMapper { shape: s, map: m }),
            _ => None,
        }
    }
}

} // verus!

verus! {

/// The larger of two counts.
pub open spec fn max_nat(a: nat, b: nat) -> nat {
    if a >= b {
        a
    } else {
        b
    }
}

/// `n` integer slots of zero.
pub open spec fn zeros_int(n: nat) -> Seq<i32> {
    Seq::new(n, |_i: int| 0i32)
}

/// `n` float slots of zero.
pub open spec fn zeros_float(n: nat) -> Seq<u32> {
    Seq::new(n, |_i: int| 0u32)
}

/// Appends `n` zero integer slots.
fn pad_int(buffer: &mut Vec<i32>, n: usize)
    ensures
        final(buffer)@ == old(buffer)@ + zeros_int(n as nat),
{
    let mut i: usize = 0;
    while i < n
        invariant
            0 <= i <= n,
            buffer@ =~= old(buffer)@ + zeros_int(i as nat),
        decreases n - i,
    {
        buffer.push(0);
        i = i + 1;
        assert(buffer@ =~= old(buffer)@ + zeros_int(i as nat));
    }
}

/// Appends `n` zero float slots.
fn pad_float(buffer: &mut Vec<u32>, n: usize)
    ensures
        final(buffer)@ == old(buffer)@ + zeros_float(n as nat),
{
    let mut i: usize = 0;
    while i < n
        invariant
            0 <= i <= n,
            buffer@ =~= old(buffer)@ + zeros_float(i as nat),
        decreases n - i,
    {
        buffer.push(0);
        i = i + 1;
        assert(buffer@ =~= old(buffer)@ + zeros_float(i as nat));
    }
}

/// A choice between two shape types, fixed when the program is built, so
/// that objects of either kind share one record layout.
///
/// Packed as one integer tag (0 for `First`, 1 for `Second`), then the
/// active variant's slots, padded with zeros to the larger layout of the two.
#[derive(Clone, Debug, PartialEq, Eq)]
pub enum Select<A: Shape, B: Shape> {
    First(A),
    Second(B),
}

impl<A: Shape, B: Shape> Select<A, B> {
    /// The tag of the active variant: its index in the list of variants.
    pub open spec fn spec_tag(&self) -> i32 {
        match self {
            Select::First(_) => 0,
            Select::Second(_) => 1,
        }
    }

    /// The tag of the active variant.
    pub fn tag(&self) -> (r: i32)
        ensures
            r == self.spec_tag(),
    {
        match self {
            Select::First(_) => 0,
            Select::Second(_) => 1,
        }
    }
}

impl<A: Shape, B: Shape> Shape for Select<A, B> {

}

impl<A: Shape, B: Shape> Instance<ShapeClass> for Select<A, B> {
    open spec fn spec_inst_name() -> Seq<char> {
        compose_name("select_"@, A::spec_inst_name(), B::spec_inst_name())
    }

    open spec fn spec_fragments() -> Seq<Seq<char>> {
        A::spec_fragments() + B::spec_fragments() + seq![
            glue(
                Self::spec_inst_name(),
                A::spec_inst_name(),
                B::spec_inst_name(),
                "clay_core/shape/select.inl"@,
            ),
        ]
    }

    fn inst_name() -> (r: String) {
        let a = A::inst_name();
        let b = B::inst_name();
        compose_name_of("select_", a.as_str(), b.as_str())
    }

    fn source(ctx: &mut Assembly) {
        A::source(ctx);
        B::source(ctx);
        let name = Self::inst_name();
        let a = A::inst_name();
        let b = B::inst_name();
        let frag = glue_source(name.as_str(), a.as_str(), b.as_str(), "clay_core/shape/select.inl");
        ctx.add(frag);
        proof {
            lemma_add_all_concat(old(ctx)@, A::spec_fragments(), B::spec_fragments());
            lemma_add_all_concat(
                old(ctx)@,
                A::spec_fragments() + B::spec_fragments(),
                seq![frag@],
            );
        }
    }
}

impl<A: Shape, B: Shape> Pack for Select<A, B> {
    open spec fn spec_size_int() -> nat {
        1 + max_nat(A::spec_size_int(), B::spec_size_int())
    }

    open spec fn spec_size_float() -> nat {
        max_nat(A::spec_size_float(), B::spec_size_float())
    }

    open spec fn spec_ints(&self) -> Seq<i32> {
        let m = max_nat(A::spec_size_int(), B::spec_size_int());
        match self {
            Select::First(a) => seq![0i32] + a.spec_ints() + zeros_int(
                (m - A::spec_size_int()) as nat,
            ),
            Select::Second(b) => seq![1i32] + b.spec_ints() + zeros_int(
                (m - B::spec_size_int()) as nat,
            ),
        }
    }

    open spec fn spec_floats(&self) -> Seq<u32> {
        let m = max_nat(A::spec_size_float(), B::spec_size_float());
        match self {
            Select::First(a) => a.spec_floats() + zeros_float((m - A::spec_size_float()) as nat),
            Select::Second(b) => b.spec_floats() + zeros_float((m - B::spec_size_float()) as nat),
        }
    }

    open spec fn spec_unpack(ints: Seq<i32>, floats: Seq<u32>) -> Option<Self> {
        if ints.len() == 0 {
            None
        } else if ints[0] == 0 {
            match A::spec_unpack(
                ints.subrange(1, 1 + A::spec_size_int() as int),
                floats.take(A::spec_size_float() as int),
            ) {
                Some(a) => Some(Select::First(a)),
                None => None,
            }
        } else if ints[0] == 1 {
            match B::spec_unpack(
                ints.subrange(1, 1 + B::spec_size_int() as int),
                floats.take(B::spec_size_float() as int),
            ) {
                Some(b) => Some(Select::Second(b)),
                None => None,
            }
        } else {
            None
        }
    }

    proof fn lemma_layout(x: &Self) {
        match x {
            Select::First(a) => A::lemma_layout(a),
            Select::Second(b) => B::lemma_layout(b),
        }
    }

    proof fn lemma_round_trip(x: Self) {
        match x {
            Select::First(a) => {
                A::lemma_layout(&a);
                A::lemma_round_trip(a);
                assert(x.spec_ints().subrange(1, 1 + A::spec_size_int() as int) =~= a.spec_ints());
                assert(x.spec_floats().take(A::spec_size_float() as int) =~= a.spec_floats());
            },
            Select::Second(b) => {
                B::lemma_layout(&b);
                B::lemma_round_trip(b);
                assert(x.spec_ints().subrange(1, 1 + B::spec_size_int() as int) =~= b.spec_ints());
                assert(x.spec_floats().take(B::spec_size_float() as int) =~= b.spec_floats());
            },
        }
    }

    fn size_int() -> (r: usize) {
        let a = A::size_int();
        let b = B::size_int();
        if a >= b {
            1 + a
        } else {
            1 + b
        }
    }

    fn size_float() -> (r: usize) {
        let a = A::size_float();
        let b = B::size_float();
        if a >= b {
            a
        } else {
            b
        }
    }

    fn pack(&self, buffer_int: &mut Vec<i32>, buffer_float: &mut Vec<u32>) {
        let mi = Self::size_int() - 1;
        let mf = Self::size_float();
        match self {
            Select::First(a) => {
                buffer_int.push(0);
                a.pack(buffer_int, buffer_float);
                pad_int(buffer_int, mi - A::size_int());
                pad_float(buffer_float, mf - A::size_float());
            },
            Select::Second(b) => {
                buffer_int.push(1);
                b.pack(buffer_int, buffer_float);
                pad_int(buffer_int, mi - B::size_int());
                pad_float(buffer_float, mf - B::size_float());
            },
        }
        assert(buffer_int@ =~= old(buffer_int)@ + self.spec_ints());
        assert(buffer_float@ =~= old(buffer_float)@ + self.spec_floats());
    }

    fn unpack(buffer_int: &[i32], buffer_float: &[u32]) -> (r: Option<Self>) {
        let ti = buffer_int.len();
        let tf = buffer_float.len();
        let tag = buffer_int[0];
        if tag == 0 {
            let ni = A::size_int();
            let nf = A::size_float();
            assert(buffer_float@.subrange(0, nf as int) =~= buffer_float@.take(nf as int));
            match A::unpack(&buffer_int[1..1 + ni], &buffer_float[0..nf]) {
                Some(a) => Some(Select::First(a)),
                None => None,
            }
        } else if tag == 1 {
            let ni = B::size_int();
            let nf = B::size_float();
            assert(buffer_float@.subrange(0, nf as int) =~= buffer_float@.take(nf as int));
            match B::unpack(&buffer_int[1..1 + ni], &buffer_float[0..nf]) {
                Some(b) => Some(Select::Second(b)),
                None => None,
            }
        } else {
            None
        }
    }
}

/// A selector's first integer slot is the index of its active variant,
/// and its layout has the larger size of the two variants, plus the tag.
pub proof fn lemma_select_tag<A: Shape, B: Shape>(x: Select<A, B>)
    ensures
        x.spec_ints().len() == 1 + max_nat(A::spec_size_int(), B::spec_size_int()),
        x.spec_floats().len() == max_nat(A::spec_size_float(), B::spec_size_float()),
        x.spec_ints()[0] == x.spec_tag(),
        x is First ==> x.spec_ints()[0] == 0,
        x is Second ==> x.spec_ints()[0] == 1,
{
    Select::<A, B>::lemma_layout(&x);
}

} // verus!
