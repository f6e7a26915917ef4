use vstd::prelude::*;

verus! {

/// Errors raised towards the host runtime.
#[derive(Copy, Clone, PartialEq, Eq, Structural, Debug)]
pub enum Error {
    /// A runtime-supplied argument does not have the expected shape or arity.
    TypeError,
    /// A value lies outside the validated enumerated or numeric domain.
    OutOfRange,
}

} // verus!
