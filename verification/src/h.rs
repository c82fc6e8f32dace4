//! What belongs to the top-level `h` alone: the `f` that it runs last.

use crate::m1::m2::g;
use crate::Foo;
use vstd::prelude::*;

verus! {

/// Runs the imported `g`, which leaves its three lines, then appends its own
/// line and builds a `Foo`.
pub fn f(out: &mut Vec<&'static str>)
    ensures
        final(out)@ == old(out)@ + seq![
            "main.rs::m1::m2::g",
            "main.rs::m1::m2::f",
            "main.rs::m1::f",
            "main.rs::h::f",
        ],
{
    g(out);
    out.push("main.rs::h::f");
    let _ = Foo {};
}

} // verus!
