use vstd::prelude::*;

verus! {

/// Adds one fragment to a list of distinct fragments, unless an identical
/// one is already there.
pub open spec fn add_one(s: Seq<Seq<char>>, f: Seq<char>) -> Seq<Seq<char>> {
    if s.contains(f) {
        s
    } else {
        s.push(f)
    }
}

/// Adds the fragments `fs`, in order, to `s`.
pub open spec fn add_all(s: Seq<Seq<char>>, fs: Seq<Seq<char>>) -> Seq<Seq<char>>
    decreases fs.len(),
{
    if fs.len() == 0 {
        s
    } else {
        add_one(add_all(s, fs.drop_last()), fs.last())
    }
}

/// The program text of a list of fragments: each one followed by a newline.
pub open spec fn join(fs: Seq<Seq<char>>) -> Seq<char>
    decreases fs.len(),
{
    if fs.len() == 0 {
        Seq::empty()
    } else {
        join(fs.drop_last()) + fs.last() + "\n"@
    }
}

/// The fragment that instantiates a device-code template for a composite
/// component `name` built from the instances `a` and `b`.
pub open spec fn glue(name: Seq<char>, a: Seq<char>, b: Seq<char>, template: Seq<char>) -> Seq<char> {
    "// "@ + name + "\n#define __NAME__ "@ + name + "\n#define __A__ "@ + a + "\n#define __B__ "@ + b
        + "\n#include <"@ + template + ">\n#undef __NAME__\n#undef __A__\n#undef __B__"@
}

/// Writes the fragment `glue(name, a, b, template)`.
pub fn glue_source(name: &str, a: &str, b: &str, template: &str) -> (r: String)
    ensures
        r@ == glue(name@, a@, b@, template@),
{
    let mut r = String::from_str("// ");
    r.append(name);
    r.append("\n#define __NAME__ ");
    r.append(name);
    r.append("\n#define __A__ ");
    r.append(a);
    r.append("\n#define __B__ ");
    r.append(b);
    r.append("\n#include <");
    r.append(template);
    r.append(">\n#undef __NAME__\n#undef __A__\n#undef __B__");
    r
}

/// The name of a composite: `prefix`, then the names of its constituents
/// joined by `_`.
pub open spec fn compose_name(prefix: Seq<char>, a: Seq<char>, b: Seq<char>) -> Seq<char> {
    prefix + a + "_"@ + b
}

/// Writes the name `compose_name(prefix, a, b)`.
pub fn compose_name_of(prefix: &str, a: &str, b: &str) -> (r: String)
    ensures
        r@ == compose_name(prefix@, a@, b@),
{
    let mut r = String::from_str(prefix);
    r.append(a);
    r.append("_");
    r.append(b);
    r
}

/// Adding two lists one after the other is adding their concatenation.
pub proof fn lemma_add_all_concat(s: Seq<Seq<char>>, f1: Seq<Seq<char>>, f2: Seq<Seq<char>>)
    ensures
        add_all(add_all(s, f1), f2) == add_all(s, f1 + f2),
    decreases f2.len(),
{
    if f2.len() == 0 {
        assert(f1 + f2 =~= f1);
    } else {
        lemma_add_all_concat(s, f1, f2.drop_last());
        assert((f1 + f2).drop_last() =~= f1 + f2.drop_last());
        assert((f1 + f2).last() == f2.last());
    }
}

/// Assembly keeps exactly one copy of each fragment: starting from distinct
/// fragments, adding any fragments, duplicates among them included, leaves
/// distinct fragments, and a fragment is present afterwards exactly when it
/// was present before or was added.
pub proof fn lemma_assembly_dedup(s: Seq<Seq<char>>, fs: Seq<Seq<char>>)
    requires
        s.no_duplicates(),
    ensures
        add_all(s, fs).no_duplicates(),
        forall|f: Seq<char>| #[trigger]
            add_all(s, fs).contains(f) <==> (s.contains(f) || fs.contains(f)),
    decreases fs.len(),
{
    if fs.len() > 0 {
        let prev = add_all(s, fs.drop_last());
        lemma_assembly_dedup(s, fs.drop_last());
        let last = fs.last();
        if !prev.contains(last) {
            let next = prev.push(last);
            assert forall|i: int, j: int| 0 <= i < next.len() && 0 <= j < next.len() && i != j
                implies next[i] != next[j] by {
                if i < prev.len() && j < prev.len() {
                } else if i == prev.len() {
                    assert(prev.contains(next[j]));
                } else {
                    assert(prev.contains(next[i]));
                }
            }
        }
        assert forall|f: Seq<char>| #[trigger]
            add_all(s, fs).contains(f) <==> (s.contains(f) || fs.contains(f)) by {
            if fs.contains(f) && !fs.drop_last().contains(f) {
                let k = choose|k: int| 0 <= k < fs.len() && fs[k] == f;
                if k < fs.len() - 1 {
                    assert(fs.drop_last()[k] == f);
                }
            }
            if fs.drop_last().contains(f) {
                let k = choose|k: int| 0 <= k < fs.len() - 1 && fs.drop_last()[k] == f;
                assert(fs[k] == f);
            }
            if add_all(s, fs).contains(f) && !prev.contains(f) {
                assert(f == last);
                assert(fs[fs.len() - 1] == f);
            }
            if f == last {
                assert(add_one(prev, last).contains(last)) by {
                    if !prev.contains(last) {
                        assert(prev.push(last)[prev.len() as int] == last);
                    }
                }
            }
            if prev.contains(f) {
                let k = choose|k: int| 0 <= k < prev.len() && prev[k] == f;
                if !prev.contains(last) {
                    assert(prev.push(last)[k] == f);
                }
            }
        }
    }
}

/// The assembly context of one program: the distinct fragments emitted so
/// far, in the order in which they first came.
pub struct Assembly {
    frags: Vec<String>,
}

impl View for Assembly {
    type V = Seq<Seq<char>>;

    closed spec fn view(&self) -> Seq<Seq<char>> {
        self.frags@.map_values(|s: String| s@)
    }
}

impl Assembly {
    /// No fragment is held twice.
    pub open spec fn wf(&self) -> bool {
        self@.no_duplicates()
    }

    /// An empty assembly.
    pub fn new() -> (r: Assembly)
        ensures
            r.wf(),
            r@ == Seq::<Seq<char>>::empty(),
    {
        let r = Assembly { frags: Vec::new() };
        assert(r@ =~= Seq::<Seq<char>>::empty());
        r
    }

    /// Number of distinct fragments held.
    pub fn len(&self) -> (r: usize)
        ensures
            r == self@.len(),
    {
        self.frags.len()
    }

    /// The fragment at position `i`.
    pub fn fragment(&self, i: usize) -> (r: &String)
        requires
            i < self@.len(),
        ensures
            r@ == self@[i as int],
    {
        &self.frags[i]
    }

    /// Whether a fragment with this text is already held.
    pub fn contains(&self, frag: &String) -> (r: bool)
        ensures
            r == self@.contains(frag@),
    {
        let n = self.frags.len();
        let mut i: usize = 0;
        while i < n
            invariant
                n == self.frags.len(),
                self@.len() == n,
                0 <= i <= n,
                forall|k: int| 0 <= k < i ==> self@[k] != frag@,
            decreases n - i,
        {
            if self.frags[i] == *frag {
                assert(self@[i as int] == frag@);
                return true;
            }
            i = i + 1;
        }
        false
    }

    /// Adds a fragment unless an identical one is already held.
    pub fn add(&mut self, frag: String)
        requires
            old(self).wf(),
        ensures
            final(self).wf(),
            final(self)@ == add_one(old(self)@, frag@),
            final(self)@ == add_all(old(self)@, seq![frag@]),
    {
        assert(seq![frag@].drop_last() =~= Seq::<Seq<char>>::empty());
        assert(add_all(self@, Seq::empty()) == self@);
        if !self.contains(&frag) {
            let ghost before = self@;
            self.frags.push(frag);
            assert(self@ =~= before.push(frag@));
            proof {
                lemma_assembly_dedup(before, seq![frag@]);
                assert(seq![frag@].drop_last() =~= Seq::<Seq<char>>::empty());
        assert(add_all(self@, Seq::empty()) == self@);
            }
        }
    }

    /// The program text: each fragment followed by a newline.
    pub fn text(&self) -> (r: String)
        ensures
            r@ == join(self@),
    {
        let mut r = String::new();
        let n = self.frags.len();
        let mut i: usize = 0;
        while i < n
            invariant
                n == self.frags.len(),
                self@.len() == n,
                0 <= i <= n,
                r@ == join(self@.take(i as int)),
            decreases n - i,
        {
            assert(self@.take(i + 1).drop_last() =~= self@.take(i as int));
            r.append(self.frags[i].as_str());
            r.append("\n");
            i = i + 1;
        }
        assert(self@.take(n as int) =~= self@);
        r
    }
}

} // verus!
