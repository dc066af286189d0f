//! The result a batch run hands back to the host.

use vstd::prelude::*;

verus! {

/// What a batch returns: how many tasks completed, and the result of the
/// task whose slot is read first, as a representative sample.
#[derive(Debug, PartialEq, Eq)]
pub struct RunResult {
    pub len: u32,
    pub result: String,
}

} // verus!
