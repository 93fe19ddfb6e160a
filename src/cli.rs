use vstd::prelude::*;

verus! {

/// The two paths the command takes: the description to read and the
/// directory to write the generated project into.
pub struct Args {
    pub file: String,
    pub output: String,
}

} // verus!
