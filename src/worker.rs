use vstd::prelude::*;

use crate::assembly::{Assembly, add_all, join, lemma_add_all_concat, lemma_assembly_dedup};
use crate::class::{Class, Instance, ObjectClass};
use crate::pack::Pack;
use crate::scene::ListScene;
use crate::view::Camera;

verus! {

/// The entry point of every program: it reads the scene buffers and the
/// view arguments and writes the pixels.
pub open spec fn driver() -> Seq<char> {
    "// main\n#include <clay_core/main.c>"@
}

/// Every fragment that the program of scene objects `T` and view `V`
/// needs, in the order they are contributed, repeats included.
pub open spec fn spec_contributions<T: Pack + Instance<ObjectClass>, V: Camera>() -> Seq<Seq<char>> {
    ListScene::<T>::spec_fragments() + V::spec_fragments() + seq![driver()]
}

/// The distinct fragments of the program, in order of first contribution.
pub open spec fn spec_program_fragments<T: Pack + Instance<ObjectClass>, V: Camera>() -> Seq<
    Seq<char>,
> {
    add_all(Seq::empty(), spec_contributions::<T, V>())
}

/// Collects the fragments that a scene of objects `T` viewed through `V`
/// needs, each distinct text once, then the entry point.
pub fn assemble<T: Pack + Instance<ObjectClass>, V: Camera>() -> (r: Assembly)
    ensures
        r.wf(),
        r@ == spec_program_fragments::<T, V>(),
{
    let mut ctx = Assembly::new();
    ListScene::<T>::source(&mut ctx);
    V::source(&mut ctx);
    let main = String::from_str("// main\n#include <clay_core/main.c>");
    ctx.add(main);
    proof {
        lemma_add_all_concat(Seq::empty(), ListScene::<T>::spec_fragments(), V::spec_fragments());
        lemma_add_all_concat(
            Seq::empty(),
            ListScene::<T>::spec_fragments() + V::spec_fragments(),
            seq![driver()],
        );
    }
    ctx
}

/// The text of the single device program for a scene of objects `T`
/// viewed through `V`.
pub fn program_source<T: Pack + Instance<ObjectClass>, V: Camera>() -> (r: String)
    ensures
        r@ == join(spec_program_fragments::<T, V>()),
{
    let ctx = assemble::<T, V>();
    ctx.text()
}

/// A program holds each fragment its components need exactly once,
/// however many components need it, and nothing else.
pub proof fn lemma_program_dedup<T: Pack + Instance<ObjectClass>, V: Camera>()
    ensures
        spec_program_fragments::<T, V>().no_duplicates(),
        forall|f: Seq<char>| #[trigger]
            spec_program_fragments::<T, V>().contains(f) <==> spec_contributions::<
                T,
                V,
            >().contains(f),
{
    lemma_assembly_dedup(Seq::empty(), spec_contributions::<T, V>());
}

/// Two component types that both need the fragment `x` give a program
/// holding `x` exactly once: at one position, and at no other.
pub proof fn lemma_shared_fragment_once<K1: Class, C1: Instance<K1>, K2: Class, C2: Instance<K2>>(
    x: Seq<char>,
)
    requires
        C1::spec_fragments().contains(x),
        C2::spec_fragments().contains(x),
    ensures
        exists|k: int|
            0 <= k < add_all(Seq::empty(), C1::spec_fragments() + C2::spec_fragments()).len()
                && #[trigger] add_all(Seq::empty(), C1::spec_fragments() + C2::spec_fragments())[k]
                == x,
        forall|j: int, k: int|
            0 <= j < add_all(Seq::empty(), C1::spec_fragments() + C2::spec_fragments()).len() && 0
                <= k < add_all(Seq::empty(), C1::spec_fragments() + C2::spec_fragments()).len()
                && #[trigger] add_all(Seq::empty(), C1::spec_fragments() + C2::spec_fragments())[j]
                == x && #[trigger] add_all(
                Seq::empty(),
                C1::spec_fragments() + C2::spec_fragments(),
            )[k] == x ==> j == k,
{
    let fs = C1::spec_fragments() + C2::spec_fragments();
    let k0 = choose|k: int| 0 <= k < C1::spec_fragments().len() && C1::spec_fragments()[k] == x;
    assert(fs[k0] == x);
    lemma_assembly_dedup(Seq::empty(), fs);
    assert(add_all(Seq::empty(), fs).contains(x));
}

} // verus!
