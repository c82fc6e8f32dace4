//! The bottom of the second tree: the `f` that every `g` of the tree ends in.

use vstd::prelude::*;

verus! {

/// Appends the line of this module's `f` to `out`.
pub fn f(out: &mut Vec<&'static str>)
    ensures
        final(out)@ == old(out)@.push("nested.rs:nested1::nested2::f"),
{
    out.push("nested.rs:nested1::nested2::f");
}

/// Appends its own line, then the line of the `f` beside it.
pub fn g(out: &mut Vec<&'static str>)
    ensures
        final(out)@ == old(out)@ + seq![
            "nested.rs:nested1::nested2::g",
            "nested.rs:nested1::nested2::f",
        ],
{
    out.push("nested.rs:nested1::nested2::g");
    f(out);
}

} // verus!
