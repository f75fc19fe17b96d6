//! Identifiers for the functions that the analysis talks about.

use vstd::prelude::*;

verus! {

/// Identifies a function that has a compilable body.
///
/// An extern builtin has no body and therefore no `FunctionId`: it can never
/// be the subject of a query.
#[derive(Clone, Copy, Debug, Hash, PartialEq, Eq, Structural)]
pub enum FunctionId {
    /// A plain (free) function.
    Free(u64),
    /// A trait-implementation method.
    Impl(u64),
}

/// The resolved target of a call site inside a lowered function body.
#[derive(Clone, Copy, Debug, Hash, PartialEq, Eq, Structural)]
pub enum CalledFunction {
    /// A call to a free function with a body.
    Free(u64),
    /// A call to a concrete trait-implementation method with a body.
    Impl(u64),
    /// A call to an extern builtin: no body, terminal for cycle purposes.
    Extern(u64),
    /// An unresolved generic trait call.  By this stage of the pipeline every
    /// trait call must already have been replaced by a concrete `Impl`, so a
    /// value of this variant marks an internal-consistency breach.
    Trait(u64),
}

impl CalledFunction {
    /// The identifier of the callee's body, for the targets that have one.
    pub open spec fn body_id(self) -> Option<FunctionId> {
        match self {
            CalledFunction::Free(n) => Some(FunctionId::Free(n)),
            CalledFunction::Impl(n) => Some(FunctionId::Impl(n)),
            CalledFunction::Extern(_) => None,
            CalledFunction::Trait(_) => None,
        }
    }
}

} // verus!
