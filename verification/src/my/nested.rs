//! The top of the second tree: a `g` that reaches two modules down.

use vstd::prelude::*;

pub mod nested1;

verus! {

/// Appends its own line, then the line of the `f` in `nested1::nested2`.
pub fn g(out: &mut Vec<&'static str>)
    ensures
        final(out)@ == old(out)@ + seq!["nested.rs::g", "nested.rs:nested1::nested2::f"],
{
    out.push("nested.rs::g");
    nested1::nested2::f(out);
}

} // verus!
