//! A launcher for WebAssembly runtimes: it reads the invocation, finds the
//! runtime executable, and assembles the command line that runs a program
//! under it. Spawning the process and reading the environment are left to the
//! caller; every decision on the way is made, and proved, here.
use vstd::prelude::*;

pub mod command;
pub mod discovery;
pub mod invocation;
pub mod launch;
pub mod runtime_args;

verus! {

/// The views of a sequence of strings.
pub open spec fn views(s: Seq<String>) -> Seq<Seq<char>> {
    s.map_values(|x: String| x@)
}

} // verus!
