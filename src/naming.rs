//! Dotted names of exposed classes and submodules.
use vstd::prelude::*;

verus! {

/// The qualified name of `name` inside `prefix`: the two joined by a dot.
///
/// Used both for a submodule registered under its parent module and for a
/// variant class nested in its enumeration class, so that the foreign side
/// can import and pickle them by that name.
pub fn qualified_name(prefix: &str, name: &str) -> (r: String)
    ensures
        r@ == prefix@ + "."@ + name@,
{
    let mut r = String::from_str(prefix);
    r.append(".");
    r.append(name);
    r
}

} // verus!
