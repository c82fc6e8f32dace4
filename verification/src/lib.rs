//! A small tree of nested modules whose functions record which of them ran.
//!
//! Several functions of the tree share a name (`f`, `g`, `h`) and differ only
//! in the module that holds them. Each one appends a line that names its own
//! place in the tree to a sink of lines, and then runs the functions that its
//! body names by a relative path or through an import. The lines that a call
//! leaves behind therefore show which item every such name was resolved to,
//! and each contract states that sequence of lines exactly.
//!
//! A line is fixed text: a file name, then the path of the function from
//! the top of its tree. The lines of the tree under `m1` and of `h` begin with
//! `main.rs`, those of the tree under `my::nested` with `nested.rs`.
//!
//! A function only ever appends: what the sink held before a call is still
//! there after it, in front of the new lines.

use vstd::prelude::*;

pub mod h;
pub mod m1;
pub mod my;

verus! {

/// A type without fields or behaviour, built and dropped by `h`, `h::f` and
/// `i`.
pub struct Foo {}

/// Appends its own line and builds a `Foo`, then runs `h::f`, which leaves the
/// three lines of `m1::m2::g` and its own.
pub fn h(out: &mut Vec<&'static str>)
    ensures
        final(out)@ == old(out)@ + seq![
            "main.rs::h",
            "main.rs::m1::m2::g",
            "main.rs::m1::m2::f",
            "main.rs::m1::f",
            "main.rs::h::f",
        ],
{
    out.push("main.rs::h");
    let _ = Foo {};
    h::f(out);
}

/// Builds a `Foo` and drops it. It records nothing.
pub fn i() {
    let _ = Foo {};
}

} // verus!
