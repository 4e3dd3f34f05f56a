//! Renders in-memory values as the source text of constant declarations, so
//! that data computed once (for instance by a build script) can be embedded
//! into a program as a constant.
//!
//! The library also offers [`UnevalCow`], a clone-on-write container whose
//! rendering always spells the borrowed variant, the only one a constant can
//! hold.
use vstd::prelude::*;
use vstd::string::*;

pub mod concat;
pub mod convert;
pub mod read_back;
pub mod render;
pub mod shape;
pub mod uneval_cow;

pub use render::Render;
pub use shape::{Borrowable, Duplicate};
pub use uneval_cow::UnevalCow;

verus! {

/// The text `const <name>: <ty> = <value>;`.
pub open spec fn const_declaration(name: Seq<char>, ty: Seq<char>, value: Seq<char>) -> Seq<char> {
    "const "@ + name + ": "@ + ty + " = "@ + value + ";"@
}

/// Obtains the source text of the declaration of a constant named `name`,
/// of type `ty`, whose value is the rendering of `value`.
pub fn to_string<T: Render>(name: &str, value: &T, ty: &str) -> (r: String)
    ensures
        r@ == const_declaration(name@, ty@, T::render_view(value.deep_view())),
{
    let rendered = value.render();
    let mut s = String::from_str("const ");
    s.append(name);
    s.append(": ");
    s.append(ty);
    s.append(" = ");
    s.append(rendered.as_str());
    s.append(";");
    s
}

} // verus!
