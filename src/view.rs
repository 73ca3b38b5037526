use vstd::prelude::*;

use crate::assembly::Assembly;
use crate::class::{Instance, ViewClass};
use crate::pack::{Float3, Mat3};

verus! {

/// Per-frame device arguments: a fixed number of them, each a vector of
/// float slots.
pub trait Push: Sized {
    /// Number of arguments; the same for every value of the type.
    spec fn spec_args_count() -> nat;

    /// The arguments of this value, in binding order.
    spec fn spec_args(&self) -> Seq<Seq<u32>>;

    /// Every value has the type's number of arguments.
    proof fn lemma_args_count(x: &Self)
        ensures
            x.spec_args().len() == Self::spec_args_count(),
    ;

    /// Number of arguments.
    fn args_count() -> (r: usize)
        ensures
            r == Self::spec_args_count(),
    ;

    /// The arguments, in binding order.
    fn args(&self) -> (r: Vec<Vec<u32>>)
        ensures
            r.len() == self.spec_args().len(),
            forall|i: int| 0 <= i < r.len() ==> #[trigger] r[i]@ == self.spec_args()[i],
    ;
}

/// A camera model: how rays leave the eye. Its state is not in the scene
/// buffers; it is pushed as arguments each frame.
pub trait Camera: Push + Instance<ViewClass> {

}

/// A projective camera: a position and an orientation.
#[derive(Clone, Copy, Debug, PartialEq, Eq, Structural)]
pub struct ProjView {
    pub pos: Float3,
    /// Orientation, by columns.
    pub ori: Mat3,
}

/// The orientation as a 16-wide vector: each column followed by a zero
/// slot, then four zero slots.
pub open spec fn wide_ori(m: Mat3) -> Seq<u32> {
    m.c0.spec_slots().push(0) + m.c1.spec_slots().push(0) + m.c2.spec_slots().push(0) + seq![
        0u32,
        0u32,
        0u32,
        0u32,
    ]
}

impl ProjView {
    /// A camera at `pos` with orientation `ori`.
    pub fn new(pos: Float3, ori: Mat3) -> (r: ProjView)
        ensures
            r.pos == pos,
            r.ori == ori,
    {
        ProjView { pos, ori }
    }
}

impl Push for ProjView {
    open spec fn spec_args_count() -> nat {
        2
    }

    open spec fn spec_args(&self) -> Seq<Seq<u32>> {
        seq![self.pos.spec_slots(), wide_ori(self.ori)]
    }

    proof fn lemma_args_count(x: &Self) {
    }

    fn args_count() -> (r: usize) {
        2
    }

    fn args(&self) -> (r: Vec<Vec<u32>>) {
        let mut pos: Vec<u32> = Vec::new();
        self.pos.push_to(&mut pos);
        let mut ori: Vec<u32> = Vec::new();
        self.ori.c0.push_to(&mut ori);
        ori.push(0);
        self.ori.c1.push_to(&mut ori);
        ori.push(0);
        self.ori.c2.push_to(&mut ori);
        ori.push(0);
        ori.push(0);
        ori.push(0);
        ori.push(0);
        ori.push(0);
        assert(pos@ =~= self.pos.spec_slots());
        assert(ori@ =~= wide_ori(self.ori));
        let mut r: Vec<Vec<u32>> = Vec::new();
        r.push(pos);
        r.push(ori);
        r
    }
}

impl Camera for ProjView {

}

impl Instance<ViewClass> for ProjView {
    open spec fn spec_inst_name() -> Seq<char> {
        "proj_view"@
    }

    open spec fn spec_fragments() -> Seq<Seq<char>> {
        seq!["// proj_view\n#include <clay_core/view/proj_view.h>"@]
    }

    fn inst_name() -> (r: String) {
        String::from_str("proj_view")
    }

    fn source(ctx: &mut Assembly) {
        ctx.add(String::from_str("// proj_view\n#include <clay_core/view/proj_view.h>"));
    }
}

} // verus!
