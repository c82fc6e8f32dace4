//! The innermost module: it brings the `f` of `m2` in by name and runs it.

use super::f;
use vstd::prelude::*;

verus! {

/// Appends its own line, then the line of the `f` that the import names: the
/// one of the module above, not the outermost one.
pub fn h(out: &mut Vec<&'static str>)
    ensures
        final(out)@ == old(out)@ + seq!["main.rs::m1::m2::m3::h", "main.rs::m1::m2::f"],
{
    out.push("main.rs::m1::m2::m3::h");
    f(out);
}

} // verus!
