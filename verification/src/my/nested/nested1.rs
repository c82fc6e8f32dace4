//! One module down: a `g` that reaches the `f` of the module below.

use vstd::prelude::*;

pub mod nested2;

verus! {

/// Appends its own line, then the line of the `f` in `nested2`.
pub fn g(out: &mut Vec<&'static str>)
    ensures
        final(out)@ == old(out)@ + seq!["nested.rs:nested1::g", "nested.rs:nested1::nested2::f"],
{
    out.push("nested.rs:nested1::g");
    nested2::f(out);
}

} // verus!
