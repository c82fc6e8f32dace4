//! The middle module: an `f` that hides the one above it, and a `g` that
//! reaches both.

use vstd::prelude::*;

pub mod m3;

verus! {

/// Appends the line of this module's `f` to `out`.
pub fn f(out: &mut Vec<&'static str>)
    ensures
        final(out)@ == old(out)@.push("main.rs::m1::m2::f"),
{
    out.push("main.rs::m1::m2::f");
}

/// Appends its own line, then the line of the `f` beside it, then the line of
/// the `f` one module up.
pub fn g(out: &mut Vec<&'static str>)
    ensures
        final(out)@ == old(out)@ + seq![
            "main.rs::m1::m2::g",
            "main.rs::m1::m2::f",
            "main.rs::m1::f",
        ],
{
    out.push("main.rs::m1::m2::g");
    f(out);
    super::f(out);
}

} // verus!
