use vstd::prelude::*;

verus! {

/// A fixed layout of a component's parameters in two flat device buffers:
/// a buffer of 32-bit integers and a buffer of 32-bit floats. A float slot
/// holds the IEEE 754 single-precision bit pattern of its value.
pub trait Pack: Sized {
    /// Number of integer slots; the same for every value of the type.
    spec fn spec_size_int() -> nat;

    /// Number of float slots; the same for every value of the type.
    spec fn spec_size_float() -> nat;

    /// The integer slots written for this value.
    spec fn spec_ints(&self) -> Seq<i32>;

    /// The float slots written for this value.
    spec fn spec_floats(&self) -> Seq<u32>;

    /// The value that these slots hold, if any.
    spec fn spec_unpack(ints: Seq<i32>, floats: Seq<u32>) -> Option<Self>;

    /// Every value writes exactly the type's number of slots.
    proof fn lemma_layout(x: &Self)
        ensures
            x.spec_ints().len() == Self::spec_size_int(),
            x.spec_floats().len() == Self::spec_size_float(),
    ;

    /// Reading back what a value wrote gives that value.
    proof fn lemma_round_trip(x: Self)
        ensures
            Self::spec_unpack(x.spec_ints(), x.spec_floats()) == Some(x),
    ;

    /// Number of integer slots.
    fn size_int() -> (r: usize)
        requires
            Self::spec_size_int() <= usize::MAX,
        ensures
            r == Self::spec_size_int(),
    ;

    /// Number of float slots.
    fn size_float() -> (r: usize)
        requires
            Self::spec_size_float() <= usize::MAX,
        ensures
            r == Self::spec_size_float(),
    ;

    /// Appends the value's slots to the two buffers.
    fn pack(&self, buffer_int: &mut Vec<i32>, buffer_float: &mut Vec<u32>)
        requires
            Self::spec_size_int() <= usize::MAX,
            Self::spec_size_float() <= usize::MAX,
        ensures
            final(buffer_int)@ == old(buffer_int)@ + self.spec_ints(),
            final(buffer_float)@ == old(buffer_float)@ + self.spec_floats(),
    ;

    /// Reads a value back from exactly its slots.
    fn unpack(buffer_int: &[i32], buffer_float: &[u32]) -> (r: Option<Self>)
        requires
            buffer_int@.len() == Self::spec_size_int(),
            buffer_float@.len() == Self::spec_size_float(),
        ensures
            r == Self::spec_unpack(buffer_int@, buffer_float@),
    ;
}

/// Packing a value and reading its slots back gives the value again, for
/// every component type.
pub proof fn lemma_pack_round_trip<T: Pack>(x: T)
    ensures
        T::spec_unpack(x.spec_ints(), x.spec_floats()) == Some(x),
{
    T::lemma_round_trip(x);
}

/// The slot counts of a type are the same for any two of its values, and
/// are what `pack` writes.
pub proof fn lemma_layout_constant<T: Pack>(x: T, y: T)
    ensures
        x.spec_ints().len() == y.spec_ints().len(),
        x.spec_floats().len() == y.spec_floats().len(),
        x.spec_ints().len() == T::spec_size_int(),
        x.spec_floats().len() == T::spec_size_float(),
{
    T::lemma_layout(&x);
    T::lemma_layout(&y);
}

/// Three float values, as bit patterns: a point, a direction or a color.
#[derive(Clone, Copy, Debug, PartialEq, Eq, Structural)]
pub struct Float3 {
    pub x: u32,
    pub y: u32,
    pub z: u32,
}

impl Float3 {
    /// The three slots, in the order x, y, z.
    pub open spec fn spec_slots(self) -> Seq<u32> {
        seq![self.x, self.y, self.z]
    }

    /// The three values that start at position `i` of `s`.
    pub open spec fn spec_at(s: Seq<u32>, i: int) -> Float3 {
        Float3 { x: s[i], y: s[i + 1], z: s[i + 2] }
    }

    /// Appends the three slots.
    pub fn push_to(&self, buffer: &mut Vec<u32>)
        ensures
            final(buffer)@ == old(buffer)@ + self.spec_slots(),
    {
        let ghost before = buffer@;
        buffer.push(self.x);
        buffer.push(self.y);
        buffer.push(self.z);
        assert(buffer@ =~= before + self.spec_slots());
    }

    /// Reads three slots starting at `at`.
    pub fn read_from(buffer: &[u32], at: usize) -> (r: Float3)
        requires
            at + 3 <= buffer@.len(),
        ensures
            r == Float3::spec_at(buffer@, at as int),
    {
        Float3 { x: buffer[at], y: buffer[at + 1], z: buffer[at + 2] }
    }
}

/// A 3x3 matrix of float bit patterns, stored by columns.
#[derive(Clone, Copy, Debug, PartialEq, Eq, Structural)]
pub struct Mat3 {
    pub c0: Float3,
    pub c1: Float3,
    pub c2: Float3,
}

impl Mat3 {
    /// The nine slots, column after column.
    pub open spec fn spec_slots(self) -> Seq<u32> {
        self.c0.spec_slots() + self.c1.spec_slots() + self.c2.spec_slots()
    }

    /// The nine values that start at position `i` of `s`.
    pub open spec fn spec_at(s: Seq<u32>, i: int) -> Mat3 {
        Mat3 {
            c0: Float3::spec_at(s, i),
            c1: Float3::spec_at(s, i + 3),
            c2: Float3::spec_at(s, i + 6),
        }
    }

    /// Appends the nine slots.
    pub fn push_to(&self, buffer: &mut Vec<u32>)
        ensures
            final(buffer)@ == old(buffer)@ + self.spec_slots(),
    {
        let ghost before = buffer@;
        self.c0.push_to(buffer);
        self.c1.push_to(buffer);
        self.c2.push_to(buffer);
        assert(buffer@ =~= before + self.spec_slots());
    }

    /// Reads nine slots starting at `at`.
    pub fn read_from(buffer: &[u32], at: usize) -> (r: Mat3)
        requires
            at + 9 <= buffer@.len(),
        ensures
            r == Mat3::spec_at(buffer@, at as int),
            r.spec_slots() == buffer@.subrange(at as int, at + 9),
    {
        let n = buffer.len();
        assert(at + 9 <= n);
        let r = Mat3 {
            c0: Float3::read_from(buffer, at),
            c1: Float3::read_from(buffer, at + 3),
            c2: Float3::read_from(buffer, at + 6),
        };
        assert(r.spec_slots() =~= buffer@.subrange(at as int, at + 9));
        r
    }
}

} // verus!
