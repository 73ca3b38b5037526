use vstd::prelude::*;

use crate::assembly::{Assembly, add_all, lemma_add_all_concat};
use crate::class::{Instance, ObjectClass};
use crate::pack::Pack;
use crate::shape::{Select, Shape, max_nat};

verus! {

/// The integer buffer of a list of objects: their slots one after another.
pub open spec fn flat_ints<T: Pack>(objs: Seq<T>) -> Seq<i32>
    decreases objs.len(),
{
    if objs.len() == 0 {
        Seq::empty()
    } else {
        flat_ints(objs.drop_last()) + objs.last().spec_ints()
    }
}

/// The float buffer of a list of objects: their slots one after another.
pub open spec fn flat_floats<T: Pack>(objs: Seq<T>) -> Seq<u32>
    decreases objs.len(),
{
    if objs.len() == 0 {
        Seq::empty()
    } else {
        flat_floats(objs.drop_last()) + objs.last().spec_floats()
    }
}

/// The buffers of a one-object list are that object's slots.
pub proof fn lemma_flat_one<T: Pack>(x: T)
    ensures
        flat_ints(seq![x]) == x.spec_ints(),
        flat_floats(seq![x]) == x.spec_floats(),
{
    assert(seq![x].drop_last() =~= Seq::<T>::empty());
    assert(seq![x].last() == x);
    assert(flat_ints(Seq::<T>::empty()) =~= Seq::<i32>::empty());
    assert(flat_floats(Seq::<T>::empty()) =~= Seq::<u32>::empty());
    assert(flat_ints(seq![x]) =~= x.spec_ints());
    assert(flat_floats(seq![x]) =~= x.spec_floats());
}

/// The buffers of two lists one after the other are the buffers of the
/// concatenated list.
pub proof fn lemma_flat_concat<T: Pack>(a: Seq<T>, b: Seq<T>)
    ensures
        flat_ints(a + b) == flat_ints(a) + flat_ints(b),
        flat_floats(a + b) == flat_floats(a) + flat_floats(b),
    decreases b.len(),
{
    if b.len() == 0 {
        assert(a + b =~= a);
        assert(flat_ints(a) + flat_ints(b) =~= flat_ints(a));
        assert(flat_floats(a) + flat_floats(b) =~= flat_floats(a));
    } else {
        lemma_flat_concat(a, b.drop_last());
        assert((a + b).drop_last() =~= a + b.drop_last());
        assert((a + b).last() == b.last());
        assert(flat_ints(a + b) =~= flat_ints(a) + flat_ints(b));
        assert(flat_floats(a + b) =~= flat_floats(a) + flat_floats(b));
    }
}

/// The buffers of a list hold the type's number of slots per object.
pub proof fn lemma_flat_len<T: Pack>(objs: Seq<T>)
    ensures
        flat_ints(objs).len() == objs.len() * T::spec_size_int(),
        flat_floats(objs).len() == objs.len() * T::spec_size_float(),
    decreases objs.len(),
{
    if objs.len() > 0 {
        lemma_flat_len(objs.drop_last());
        T::lemma_layout(&objs.last());
        let n = objs.len() as int;
        let si = T::spec_size_int() as int;
        let sf = T::spec_size_float() as int;
        assert((n - 1) * si + si == n * si) by (nonlinear_arith);
        assert((n - 1) * sf + sf == n * sf) by (nonlinear_arith);
    }
}

/// Object `i` of a list occupies slots `i * size` to `(i + 1) * size` of
/// each buffer.
pub proof fn lemma_flat_slot<T: Pack>(objs: Seq<T>, i: int)
    requires
        0 <= i < objs.len(),
    ensures
        flat_ints(objs).subrange(i * T::spec_size_int(), (i + 1) * T::spec_size_int())
            == objs[i].spec_ints(),
        flat_floats(objs).subrange(i * T::spec_size_float(), (i + 1) * T::spec_size_float())
            == objs[i].spec_floats(),
{
    let si = T::spec_size_int() as int;
    let sf = T::spec_size_float() as int;
    let pre = objs.take(i);
    let rest = objs.skip(i);
    assert(objs =~= pre + rest);
    lemma_flat_concat(pre, rest);
    assert(rest =~= seq![objs[i]] + rest.skip(1));
    lemma_flat_concat(seq![objs[i]], rest.skip(1));
    lemma_flat_one(objs[i]);
    lemma_flat_len(pre);
    T::lemma_layout(&objs[i]);
    assert((i + 1) * si == i * si + si) by (nonlinear_arith);
    assert((i + 1) * sf == i * sf + sf) by (nonlinear_arith);
    assert(flat_ints(objs).subrange(i * si, (i + 1) * si) =~= objs[i].spec_ints());
    assert(flat_floats(objs).subrange(i * sf, (i + 1) * sf) =~= objs[i].spec_floats());
}

/// Removing object `i` and rebuilding takes exactly its slots out of each
/// buffer: the buffers shrink by the type's slot counts, objects before `i`
/// keep their offsets, and each later object moves down by one object's
/// slot count.
pub proof fn lemma_remove_shift<T: Pack>(objs: Seq<T>, i: int)
    requires
        0 <= i < objs.len(),
    ensures
        flat_ints(objs.remove(i)).len() == flat_ints(objs).len() - T::spec_size_int(),
        flat_floats(objs.remove(i)).len() == flat_floats(objs).len() - T::spec_size_float(),
        flat_ints(objs.remove(i)) == flat_ints(objs).take(i * T::spec_size_int())
            + flat_ints(objs).skip((i + 1) * T::spec_size_int()),
        flat_floats(objs.remove(i)) == flat_floats(objs).take(i * T::spec_size_float())
            + flat_floats(objs).skip((i + 1) * T::spec_size_float()),
{
    let si = T::spec_size_int() as int;
    let sf = T::spec_size_float() as int;
    let pre = objs.take(i);
    let post = objs.skip(i + 1);
    assert(objs.remove(i) =~= pre + post);
    assert(objs =~= pre + (seq![objs[i]] + post));
    lemma_flat_concat(pre, post);
    lemma_flat_concat(pre, seq![objs[i]] + post);
    lemma_flat_concat(seq![objs[i]], post);
    lemma_flat_one(objs[i]);
    lemma_flat_len(pre);
    T::lemma_layout(&objs[i]);
    assert((i + 1) * si == i * si + si) by (nonlinear_arith);
    assert((i + 1) * sf == i * sf + sf) by (nonlinear_arith);
    assert(flat_ints(objs).take(i * si) =~= flat_ints(pre));
    assert(flat_ints(objs).skip((i + 1) * si) =~= flat_ints(post));
    assert(flat_floats(objs).take(i * sf) =~= flat_floats(pre));
    assert(flat_floats(objs).skip((i + 1) * sf) =~= flat_floats(post));
}

/// A scene of selector records holds, whichever variants are active, one
/// tag and the larger integer layout per object, and the larger float
/// layout per object.
pub proof fn lemma_select_scene_size<A: Shape, B: Shape>(objs: Seq<Select<A, B>>)
    ensures
        flat_ints(objs).len() == objs.len() * (1 + max_nat(
            A::spec_size_int(),
            B::spec_size_int(),
        )),
        flat_floats(objs).len() == objs.len() * max_nat(A::spec_size_float(), B::spec_size_float()),
{
    lemma_flat_len(objs);
}

/// Packs a list of objects into two fresh buffers.
fn pack_all<T: Pack>(objects: &Vec<T>) -> (r: (Vec<i32>, Vec<u32>))
    requires
        T::spec_size_int() <= usize::MAX,
        T::spec_size_float() <= usize::MAX,
    ensures
        r.0@ == flat_ints(objects@),
        r.1@ == flat_floats(objects@),
{
    let mut ints: Vec<i32> = Vec::new();
    let mut floats: Vec<u32> = Vec::new();
    let n = objects.len();
    let mut k: usize = 0;
    while k < n
        invariant
            n == objects.len(),
            0 <= k <= n,
            T::spec_size_int() <= usize::MAX,
            T::spec_size_float() <= usize::MAX,
            ints@ == flat_ints(objects@.take(k as int)),
            floats@ == flat_floats(objects@.take(k as int)),
        decreases n - k,
    {
        objects[k].pack(&mut ints, &mut floats);
        assert(objects@.take(k + 1).drop_last() =~= objects@.take(k as int));
        k = k + 1;
    }
    assert(objects@.take(n as int) =~= objects@);
    (ints, floats)
}

/// A scene: an ordered list of objects, all of one type, packed one after
/// another into an integer buffer and a float buffer.
pub struct ListScene<T: Pack> {
    objects: Vec<T>,
    buffer_int: Vec<i32>,
    buffer_float: Vec<u32>,
}

impl<T: Pack + Instance<ObjectClass>> ListScene<T> {
    /// The objects, in order.
    pub closed spec fn spec_objects(&self) -> Seq<T> {
        self.objects@
    }

    /// The integer buffer.
    pub closed spec fn spec_buffer_int(&self) -> Seq<i32> {
        self.buffer_int@
    }

    /// The float buffer.
    pub closed spec fn spec_buffer_float(&self) -> Seq<u32> {
        self.buffer_float@
    }

    /// The buffers hold exactly the packed objects, and the type's layout
    /// sizes fit the machine.
    pub open spec fn wf(&self) -> bool {
        &&& T::spec_size_int() <= usize::MAX
        &&& T::spec_size_float() <= usize::MAX
        &&& self.spec_buffer_int() == flat_ints(self.spec_objects())
        &&& self.spec_buffer_float() == flat_floats(self.spec_objects())
    }

    /// The fragments of device code the scene needs: its objects', then its own.
    pub open spec fn spec_fragments() -> Seq<Seq<char>> {
        T::spec_fragments() + seq!["// list_scene\n#include <clay_core/scene/list_scene.h>"@]
    }

    /// Packs the objects into a new scene.
    pub fn new(objects: Vec<T>) -> (r: ListScene<T>)
        requires
            T::spec_size_int() <= usize::MAX,
            T::spec_size_float() <= usize::MAX,
        ensures
            r.wf(),
            r.spec_objects() == objects@,
    {
        let (buffer_int, buffer_float) = pack_all(&objects);
        ListScene { objects, buffer_int, buffer_float }
    }

    /// Adds the fragments this scene type needs to an assembly.
    pub fn source(ctx: &mut Assembly)
        requires
            old(ctx).wf(),
        ensures
            final(ctx).wf(),
            final(ctx)@ == add_all(old(ctx)@, Self::spec_fragments()),
    {
        T::source(ctx);
        let frag = String::from_str("// list_scene\n#include <clay_core/scene/list_scene.h>");
        ctx.add(frag);
        proof {
            lemma_add_all_concat(old(ctx)@, T::spec_fragments(), seq![frag@]);
        }
    }

    /// Number of objects.
    pub fn count(&self) -> (r: usize)
        ensures
            r == self.spec_objects().len(),
    {
        self.objects.len()
    }

    /// The objects, in order.
    pub fn objects(&self) -> (r: &Vec<T>)
        ensures
            r@ == self.spec_objects(),
    {
        &self.objects
    }

    /// The integer buffer.
    pub fn buffer_int(&self) -> (r: &Vec<i32>)
        ensures
            r@ == self.spec_buffer_int(),
    {
        &self.buffer_int
    }

    /// The float buffer.
    pub fn buffer_float(&self) -> (r: &Vec<u32>)
        ensures
            r@ == self.spec_buffer_float(),
    {
        &self.buffer_float
    }

    /// Where the integer slots of object `i` start.
    pub fn int_offset(&self, i: usize) -> (r: usize)
        requires
            self.wf(),
            i <= self.spec_objects().len(),
        ensures
            r == i * T::spec_size_int(),
    {
        proof {
            lemma_flat_len(self.spec_objects());
            assert(i * T::spec_size_int() <= self.spec_objects().len() * T::spec_size_int())
                by (nonlinear_arith)
                requires
                    i <= self.spec_objects().len(),
            ;
        }
        let len = self.buffer_int.len();
        assert(i * T::spec_size_int() <= len);
        i * T::size_int()
    }

    /// Where the float slots of object `i` start.
    pub fn float_offset(&self, i: usize) -> (r: usize)
        requires
            self.wf(),
            i <= self.spec_objects().len(),
        ensures
            r == i * T::spec_size_float(),
    {
        proof {
            lemma_flat_len(self.spec_objects());
            assert(i * T::spec_size_float() <= self.spec_objects().len()
                * T::spec_size_float()) by (nonlinear_arith)
                requires
                    i <= self.spec_objects().len(),
            ;
        }
        let len = self.buffer_float.len();
        assert(i * T::spec_size_float() <= len);
        i * T::size_float()
    }

    /// Reads object `i` back from the buffers.
    pub fn read_back(&self, i: usize) -> (r: Option<T>)
        requires
            self.wf(),
            i < self.spec_objects().len(),
        ensures
            r == Some(self.spec_objects()[i as int]),
    {
        let n = self.objects.len();
        let si = T::size_int();
        let sf = T::size_float();
        let oi = self.int_offset(i);
        let of = self.float_offset(i);
        let ei = self.int_offset(i + 1);
        let ef = self.float_offset(i + 1);
        proof {
            lemma_flat_len(self.spec_objects());
            lemma_flat_slot(self.spec_objects(), i as int);
            T::lemma_round_trip(self.spec_objects()[i as int]);
            assert((i + 1) * si == i * si + si) by (nonlinear_arith);
            assert((i + 1) * sf == i * sf + sf) by (nonlinear_arith);
            assert(ei == (i + 1) * si);
            assert(ef == (i + 1) * sf);
            assert((i + 1) * si <= self.spec_objects().len() * si) by (nonlinear_arith)
                requires
                    i + 1 <= self.spec_objects().len(),
            ;
            assert((i + 1) * sf <= self.spec_objects().len() * sf) by (nonlinear_arith)
                requires
                    i + 1 <= self.spec_objects().len(),
            ;
        }
        let ints = self.buffer_int.as_slice();
        let floats = self.buffer_float.as_slice();
        T::unpack(&ints[oi..ei], &floats[of..ef])
    }

    /// Removes object `i` and packs the remaining objects again.
    pub fn remove(&mut self, i: usize) -> (r: T)
        requires
            old(self).wf(),
            i < old(self).spec_objects().len(),
        ensures
            final(self).wf(),
            r == old(self).spec_objects()[i as int],
            final(self).spec_objects() == old(self).spec_objects().remove(i as int),
    {
        let r = self.objects.remove(i);
        let (buffer_int, buffer_float) = pack_all(&self.objects);
        self.buffer_int = buffer_int;
        self.buffer_float = buffer_float;
        r
    }
}

} // verus!
