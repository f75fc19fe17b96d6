//! The slices of the lowered and generated IR that the analysis reads.

use vstd::prelude::*;

use crate::ids::CalledFunction;

verus! {

/// Classification of an effect on the allocation pointer, either of a single
/// libfunc branch or of a whole function.
#[derive(Clone, Copy, Debug, PartialEq, Eq, Structural)]
pub enum ApChange {
    /// The allocation pointer advances by a compile-time-fixed amount.
    /// `new_vars_only` additionally asserts that the advance only allocates
    /// fresh temporaries; at the function level the analysis always reports
    /// it conservatively as `false`.
    Known { new_vars_only: bool },
    /// The amount cannot be statically fixed.
    Unknown,
    /// The libfunc's cost model is not yet defined.  At the function level
    /// this forces `Unknown`, but it is preserved verbatim per branch.
    NotImplemented,
}

/// The failure that the analysis propagates to its caller: a diagnostic that
/// an earlier pass already reported for the function being fetched.  The
/// analysis performs no recovery and never produces new diagnostics.
#[derive(Clone, Copy, Debug, PartialEq, Eq, Structural)]
pub enum AnalysisError {
    Diagnosed,
}

/// One statement of a lowered (flat) function body.  Only call statements
/// matter to the cycle detector; everything else is `Other`.
#[derive(Clone, Copy, Debug, PartialEq, Eq, Structural)]
pub enum LoweredStatement {
    /// A call with its resolved target.
    Call(CalledFunction),
    /// Any statement that is not a call.
    Other,
}

/// One block of a lowered (flat) function body.
#[derive(Debug, PartialEq, Eq)]
pub struct Block {
    pub statements: Vec<LoweredStatement>,
}

/// A lowered function body in flat form: genuine calls only, no inlined
/// blocks left.
#[derive(Debug, PartialEq, Eq)]
pub struct LoweredBody {
    pub blocks: Vec<Block>,
}

/// One statement of a function's generated low-level instruction sequence.
/// Only libfunc invocations matter to the resolver; jumps, labels and return
/// markers are `Other`.
#[derive(Clone, Copy, Debug, PartialEq, Eq, Structural)]
pub enum SierraStatement {
    /// An invocation of the libfunc with the given identifier.
    Invocation(u64),
    /// Any non-invocation statement.
    Other,
}

/// A function's generated low-level instruction sequence.
#[derive(Debug, PartialEq, Eq)]
pub struct SierraFunction {
    pub body: Vec<SierraStatement>,
}

/// The AP-change fact of one control-flow branch of a libfunc.
#[derive(Clone, Copy, Debug, PartialEq, Eq, Structural)]
pub struct BranchSignature {
    pub ap_change: ApChange,
}

/// A libfunc's signature: one AP-change fact per control-flow branch the
/// libfunc may take.
#[derive(Debug, PartialEq, Eq)]
pub struct LibfuncSignature {
    pub branch_signatures: Vec<BranchSignature>,
}

impl LibfuncSignature {
    /// Every branch of this libfunc advances the allocation pointer by a
    /// statically known amount.
    pub open spec fn all_branches_known(self) -> bool {
        forall|k: int|
            0 <= k < self.branch_signatures@.len() ==> (#[trigger] self.branch_signatures@[k].ap_change)
                matches ApChange::Known { .. }
    }
}

} // verus!
