//! The outer module of the tree: one `f` of its own, and `m2` below it.

use vstd::prelude::*;

pub mod m2;

verus! {

/// Appends the line of this module's `f` to `out`.
pub fn f(out: &mut Vec<&'static str>)
    ensures
        final(out)@ == old(out)@.push("main.rs::m1::f"),
{
    out.push("main.rs::m1::f");
}

} // verus!
