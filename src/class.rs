use vstd::prelude::*;

use crate::assembly::{Assembly, add_all};

verus! {

/// A capability: an interface of device code (e.g. `shape`), with the
/// methods that a conforming component defines.
pub trait Class {
    /// Name of the capability.
    spec fn spec_name() -> Seq<char>;

    /// Names of the methods, in order.
    spec fn spec_methods() -> Seq<Seq<char>>;

    /// Class name (e.g. `shape`).
    fn name() -> (r: String)
        ensures
            r@ == Self::spec_name(),
    ;

    /// List of methods of the class.
    fn methods() -> (r: Vec<String>)
        ensures
            r.len() == Self::spec_methods().len(),
            forall|i: int| 0 <= i < r.len() ==> #[trigger] r[i]@ == Self::spec_methods()[i],
    ;
}

/// An implementation of a capability in device code.
///
/// Implementer obligation: within one assembled program, distinct components
/// must use distinct instance names; nothing here checks it beyond dropping
/// fragments whose text is identical.
pub trait Instance<C: Class> {
    /// Name of the instance (e.g. `sphere` as an instance of `shape`).
    spec fn spec_inst_name() -> Seq<char>;

    /// The fragments of device code this component needs, in the order it
    /// contributes them: those of its constituents first, its own last.
    spec fn spec_fragments() -> Seq<Seq<char>>;

    /// Name of the instance, used as the prefix of its device-side symbols.
    fn inst_name() -> (r: String)
        ensures
            r@ == Self::spec_inst_name(),
    ;

    /// Adds the fragments this component needs to an assembly.
    fn source(ctx: &mut Assembly)
        requires
            old(ctx).wf(),
        ensures
            final(ctx).wf(),
            final(ctx)@ == add_all(old(ctx)@, Self::spec_fragments()),
    ;
}

/// A method list of one name.
fn one_method(m: &str) -> (r: Vec<String>)
    ensures
        r.len() == 1,
        r[0]@ == m@,
{
    let mut r: Vec<String> = Vec::new();
    r.push(String::from_str(m));
    r
}

/// The `shape` capability: where a ray hits a surface.
pub struct ShapeClass;

impl Class for ShapeClass {
    open spec fn spec_name() -> Seq<char> {
        "shape"@
    }

    open spec fn spec_methods() -> Seq<Seq<char>> {
        seq!["hit"@]
    }

    fn name() -> (r: String) {
        String::from_str("shape")
    }

    fn methods() -> (r: Vec<String>) {
        one_method("hit")
    }
}

/// The `material` capability: how a ray bounces off a surface.
pub struct MaterialClass;

impl Class for MaterialClass {
    open spec fn spec_name() -> Seq<char> {
        "material"@
    }

    open spec fn spec_methods() -> Seq<Seq<char>> {
        seq!["emit"@]
    }

    fn name() -> (r: String) {
        String::from_str("material")
    }

    fn methods() -> (r: Vec<String>) {
        one_method("emit")
    }
}

/// The `map` capability: a transform of points and directions.
pub struct MapClass;

impl Class for MapClass {
    open spec fn spec_name() -> Seq<char> {
        "map"@
    }

    open spec fn spec_methods() -> Seq<Seq<char>> {
        seq!["rel"@, "abs"@]
    }

    fn name() -> (r: String) {
        String::from_str("map")
    }

    fn methods() -> (r: Vec<String>) {
        let mut r: Vec<String> = Vec::new();
        r.push(String::from_str("rel"));
        r.push(String::from_str("abs"));
        r
    }
}

/// The `object` capability: a shape covered with a material.
pub struct ObjectClass;

impl Class for ObjectClass {
    open spec fn spec_name() -> Seq<char> {
        "object"@
    }

    open spec fn spec_methods() -> Seq<Seq<char>> {
        seq!["hit"@, "emit"@]
    }

    fn name() -> (r: String) {
        String::from_str("object")
    }

    fn methods() -> (r: Vec<String>) {
        let mut r: Vec<String> = Vec::new();
        r.push(String::from_str("hit"));
        r.push(String::from_str("emit"));
        r
    }
}

/// The `view` capability: how rays leave the camera.
pub struct ViewClass;

impl Class for ViewClass {
    open spec fn spec_name() -> Seq<char> {
        "view"@
    }

    open spec fn spec_methods() -> Seq<Seq<char>> {
        seq!["emit_ray"@]
    }

    fn name() -> (r: String) {
        String::from_str("view")
    }

    fn methods() -> (r: Vec<String>) {
        one_method("emit_ray")
    }
}

} // verus!
