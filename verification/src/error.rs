use vstd::prelude::*;

verus! {

/// Why emitting a program stopped.
#[derive(Debug, Clone, Copy, PartialEq, Eq, Structural)]
pub enum CodegenError {
    /// A struct has no field of the index asked for.
    MissingField,
}

} // verus!
