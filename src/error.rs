use vstd::prelude::*;

verus! {

/// Why a chain could not be built or applied.
#[derive(Clone, Copy, Debug, PartialEq, Eq, Structural)]
pub enum CastError {
    /// An operation does not apply to the kind produced by the step before it.
    InapplicableOperation,
    /// A value was given to a chain that starts at another kind.
    MalformedChain,
}

} // verus!
