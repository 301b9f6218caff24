use vstd::prelude::*;

verus! {

/// The command line surface: one optional file path to open.
pub struct Arguments {
    pub file: Option<String>,
}

} // verus!
