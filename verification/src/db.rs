//! The read-only inputs of one compilation session: for every function its
//! lowered body and its generated instruction sequence (or the diagnosed
//! failure that fetching it produced), and the libfunc signature registry.

use vstd::prelude::*;

use crate::ids::{CalledFunction, FunctionId};
use crate::ir::{
    AnalysisError, Block, LibfuncSignature, LoweredBody, LoweredStatement, SierraFunction,
    SierraStatement,
};

verus! {

/// First-match lookup in an association list.
pub open spec fn assoc<K, V>(entries: Seq<(K, V)>, key: K) -> Option<V>
    decreases entries.len(),
{
    if entries.len() == 0 {
        None
    } else if entries[0].0 == key {
        Some(entries[0].1)
    } else {
        assoc(entries.drop_first(), key)
    }
}

/// A successful lookup names an entry of the list.
pub proof fn lemma_assoc_is_entry<K, V>(entries: Seq<(K, V)>, key: K)
    requires
        assoc(entries, key) is Some,
    ensures
        exists|i: int|
            0 <= i < entries.len() && #[trigger] entries[i] == (key, assoc(entries, key)->Some_0),
    decreases entries.len(),
{
    if entries.len() > 0 {
        if entries[0].0 == key {
            assert(entries[0] == (key, assoc(entries, key)->Some_0));
        } else {
            lemma_assoc_is_entry(entries.drop_first(), key);
            let w = choose|i: int|
                0 <= i < entries.drop_first().len() && #[trigger] entries.drop_first()[i] == (
                key,
                assoc(entries.drop_first(), key)->Some_0,
                );
            assert(entries[w + 1] == (key, assoc(entries, key)->Some_0));
        }
    }
}

/// Whether a lowered statement is an unresolved generic trait call, which
/// must never survive to this stage of the pipeline.
pub open spec fn is_unresolved_trait_call(s: LoweredStatement) -> bool {
    s matches LoweredStatement::Call(CalledFunction::Trait(_))
}

impl Block {
    /// No unresolved trait call among this block's statements.
    pub open spec fn resolved(self) -> bool {
        forall|j: int|
            0 <= j < self.statements@.len() ==> !is_unresolved_trait_call(
                #[trigger] self.statements@[j],
            )
    }
}

impl LoweredBody {
    /// No unresolved trait call anywhere in this body.
    pub open spec fn resolved(self) -> bool {
        forall|i: int| 0 <= i < self.blocks@.len() ==> (#[trigger] self.blocks@[i]).resolved()
    }
}

/// Whether a lowered-body entry of the session's inputs is free of
/// unresolved trait calls (a diagnosed failure trivially is).
pub open spec fn entry_resolved(e: Result<LoweredBody, AnalysisError>) -> bool {
    match e {
        Ok(body) => body.resolved(),
        Err(_) => true,
    }
}

/// Whether one block is free of unresolved trait calls.
fn block_resolved(blk: &Block) -> (b: bool)
    ensures
        b == blk.resolved(),
{
    let n = blk.statements.len();
    let mut j: usize = 0;
    while j < n
        invariant
            n == blk.statements@.len(),
            j <= n,
            forall|k: int|
                0 <= k < j ==> !is_unresolved_trait_call(#[trigger] blk.statements@[k]),
        decreases n - j,
    {
        match &blk.statements[j] {
            LoweredStatement::Call(CalledFunction::Trait(_)) => {
                proof {
                    assert(!blk.resolved()) by {
                        assert(is_unresolved_trait_call(blk.statements@[j as int]));
                    }
                }
                return false;
            },
            _ => {},
        }
        j += 1;
    }
    true
}

/// Whether a lowered body is free of unresolved trait calls.
fn body_resolved(body: &LoweredBody) -> (b: bool)
    ensures
        b == body.resolved(),
{
    let n = body.blocks.len();
    let mut i: usize = 0;
    while i < n
        invariant
            n == body.blocks@.len(),
            i <= n,
            forall|k: int| 0 <= k < i ==> (#[trigger] body.blocks@[k]).resolved(),
        decreases n - i,
    {
        let blk = &body.blocks[i];
        if !block_resolved(blk) {
            proof {
                assert(!body.resolved()) by {
                    assert(*blk == body.blocks@[i as int]);
                    assert(!body.blocks@[i as int].resolved());
                }
            }
            return false;
        }
        i += 1;
    }
    true
}

/// The per-function results of the earlier passes that this analysis
/// consumes.  An absent key means the function cannot be resolved at all; a
/// present `Err` entry is a failure those passes already diagnosed, which
/// the analysis propagates unchanged.
pub struct Db {
    /// For each function, its lowered body in flat form.
    pub lowered: Vec<(FunctionId, Result<LoweredBody, AnalysisError>)>,
    /// For each function, its generated low-level instruction sequence.
    pub sierra: Vec<(FunctionId, Result<SierraFunction, AnalysisError>)>,
    /// The signature of every libfunc the generated code may invoke.
    pub libfuncs: Vec<(u64, LibfuncSignature)>,
}

impl Db {
    /// The lowered body recorded for `f`, if any.
    pub open spec fn lowered_of(self, f: FunctionId) -> Option<
        Result<LoweredBody, AnalysisError>,
    > {
        assoc(self.lowered@, f)
    }

    /// The generated instruction sequence recorded for `f`, if any.
    pub open spec fn sierra_of(self, f: FunctionId) -> Option<
        Result<SierraFunction, AnalysisError>,
    > {
        assoc(self.sierra@, f)
    }

    /// The signature registered for libfunc `l`, if any.
    pub open spec fn libfunc_of(self, l: u64) -> Option<LibfuncSignature> {
        assoc(self.libfuncs@, l)
    }

    /// Every lowered body is free of unresolved trait calls.
    pub open spec fn lowered_resolved(self) -> bool {
        forall|i: int|
            0 <= i < self.lowered@.len() ==> entry_resolved((#[trigger] self.lowered@[i]).1)
    }

    /// The libfunc that this generated statement invokes, if any, has a
    /// registered signature.
    pub open spec fn sierra_statement_known(self, s: SierraStatement) -> bool {
        match s {
            SierraStatement::Invocation(l) => self.libfunc_of(l) is Some,
            SierraStatement::Other => true,
        }
    }

    /// Every libfunc invoked by this instruction sequence has a registered
    /// signature.
    pub open spec fn fun_known(self, fun: SierraFunction) -> bool {
        forall|j: int|
            0 <= j < fun.body@.len() ==> self.sierra_statement_known(#[trigger] fun.body@[j])
    }

    /// Every libfunc invoked by this generated-instruction entry has a
    /// registered signature.
    pub open spec fn sierra_entry_known(self, e: Result<SierraFunction, AnalysisError>) -> bool {
        match e {
            Ok(fun) => self.fun_known(fun),
            Err(_) => true,
        }
    }

    /// Every libfunc invoked by a generated instruction sequence has a
    /// registered signature.
    pub open spec fn libfuncs_known(self) -> bool {
        forall|i: int|
            0 <= i < self.sierra@.len() ==> self.sierra_entry_known((#[trigger] self.sierra@[i]).1)
    }

    /// Internal consistency of the input IR, owed by the earlier passes:
    /// trait calls are all resolved and every invoked libfunc is known.
    /// Discovering a breach of this invariant is a fatal internal failure of
    /// the pipeline, not a result; the queries therefore require it.
    pub open spec fn consistent(self) -> bool {
        self.lowered_resolved() && self.libfuncs_known()
    }

    /// Runtime check of the `consistent` invariant, for a caller that
    /// receives IR it does not trust: every trait call resolved and every
    /// invoked libfunc registered.  The queries must not be posed on inputs
    /// for which this check fails.
    pub fn is_consistent(&self) -> (b: bool)
        ensures
            b == self.consistent(),
    {
        let n = self.lowered.len();
        let mut i: usize = 0;
        while i < n
            invariant
                n == self.lowered@.len(),
                i <= n,
                forall|k: int|
                    0 <= k < i ==> entry_resolved((#[trigger] self.lowered@[k]).1),
            decreases n - i,
        {
            match &self.lowered[i].1 {
                Err(_) => {},
                Ok(body) => {
                    if !body_resolved(body) {
                        proof {
                            assert(!self.lowered_resolved()) by {
                                assert(self.lowered@[i as int].1 == Ok::<
                                    LoweredBody,
                                    AnalysisError,
                                >(*body));
                                assert(!entry_resolved(self.lowered@[i as int].1));
                            }
                        }
                        return false;
                    }
                },
            }
            i += 1;
        }
        let m = self.sierra.len();
        let mut s: usize = 0;
        while s < m
            invariant
                m == self.sierra@.len(),
                s <= m,
                self.lowered_resolved(),
                forall|k: int|
                    0 <= k < s ==> self.sierra_entry_known((#[trigger] self.sierra@[k]).1),
            decreases m - s,
        {
            match &self.sierra[s].1 {
                Err(_) => {},
                Ok(fun) => {
                    if !self.fun_libfuncs_known(fun) {
                        proof {
                            assert(!self.libfuncs_known()) by {
                                assert(self.sierra@[s as int].1 == Ok::<
                                    SierraFunction,
                                    AnalysisError,
                                >(*fun));
                                assert(!self.sierra_entry_known(self.sierra@[s as int].1));
                            }
                        }
                        return false;
                    }
                },
            }
            s += 1;
        }
        true
    }

    /// Whether every libfunc that this instruction sequence invokes has a
    /// registered signature.
    fn fun_libfuncs_known(&self, fun: &SierraFunction) -> (b: bool)
        ensures
            b == self.fun_known(*fun),
    {
        let n = fun.body.len();
        let mut j: usize = 0;
        while j < n
            invariant
                n == fun.body@.len(),
                j <= n,
                forall|k: int|
                    0 <= k < j ==> self.sierra_statement_known(#[trigger] fun.body@[k]),
            decreases n - j,
        {
            match &fun.body[j] {
                SierraStatement::Other => {},
                SierraStatement::Invocation(l) => match self.libfunc_entry(*l) {
                    None => {
                        proof {
                            assert(!self.fun_known(*fun)) by {
                                assert(!self.sierra_statement_known(fun.body@[j as int]));
                            }
                        }
                        return false;
                    },
                    Some(_) => {},
                },
            }
            j += 1;
        }
        true
    }

    /// First-match lookup of `f` in the lowered-body table.
    pub fn lowered_entry(&self, f: FunctionId) -> (r: Option<
        &Result<LoweredBody, AnalysisError>,
    >)
        ensures
            match r {
                Some(e) => self.lowered_of(f) == Some(*e),
                None => self.lowered_of(f) is None,
            },
    {
        let n = self.lowered.len();
        let mut i: usize = 0;
        proof {
            assert(self.lowered@.skip(0) =~= self.lowered@);
        }
        while i < n
            invariant
                n == self.lowered@.len(),
                i <= n,
                assoc(self.lowered@, f) == assoc(self.lowered@.skip(i as int), f),
            decreases n - i,
        {
            if self.lowered[i].0 == f {
                proof {
                    assert(self.lowered@.skip(i as int)[0] == self.lowered@[i as int]);
                }
                return Some(&self.lowered[i].1);
            }
            proof {
                assert(self.lowered@.skip(i as int).drop_first() =~= self.lowered@.skip(
                    i as int + 1,
                ));
            }
            i += 1;
        }
        proof {
            assert(self.lowered@.skip(n as int) =~= Seq::<
                (FunctionId, Result<LoweredBody, AnalysisError>),
            >::empty());
        }
        None
    }

    /// First-match lookup of `f` in the generated-instruction table.
    pub fn sierra_entry(&self, f: FunctionId) -> (r: Option<
        &Result<SierraFunction, AnalysisError>,
    >)
        ensures
            match r {
                Some(e) => self.sierra_of(f) == Some(*e),
                None => self.sierra_of(f) is None,
            },
    {
        let n = self.sierra.len();
        let mut i: usize = 0;
        proof {
            assert(self.sierra@.skip(0) =~= self.sierra@);
        }
        while i < n
            invariant
                n == self.sierra@.len(),
                i <= n,
                assoc(self.sierra@, f) == assoc(self.sierra@.skip(i as int), f),
            decreases n - i,
        {
            if self.sierra[i].0 == f {
                proof {
                    assert(self.sierra@.skip(i as int)[0] == self.sierra@[i as int]);
                }
                return Some(&self.sierra[i].1);
            }
            proof {
                assert(self.sierra@.skip(i as int).drop_first() =~= self.sierra@.skip(
                    i as int + 1,
                ));
            }
            i += 1;
        }
        proof {
            assert(self.sierra@.skip(n as int) =~= Seq::<
                (FunctionId, Result<SierraFunction, AnalysisError>),
            >::empty());
        }
        None
    }

    /// First-match lookup of `l` in the libfunc signature registry.
    pub fn libfunc_entry(&self, l: u64) -> (r: Option<&LibfuncSignature>)
        ensures
            match r {
                Some(sig) => self.libfunc_of(l) == Some(*sig),
                None => self.libfunc_of(l) is None,
            },
    {
        let n = self.libfuncs.len();
        let mut i: usize = 0;
        proof {
            assert(self.libfuncs@.skip(0) =~= self.libfuncs@);
        }
        while i < n
            invariant
                n == self.libfuncs@.len(),
                i <= n,
                assoc(self.libfuncs@, l) == assoc(self.libfuncs@.skip(i as int), l),
            decreases n - i,
        {
            if self.libfuncs[i].0 == l {
                proof {
                    assert(self.libfuncs@.skip(i as int)[0] == self.libfuncs@[i as int]);
                }
                return Some(&self.libfuncs[i].1);
            }
            proof {
                assert(self.libfuncs@.skip(i as int).drop_first() =~= self.libfuncs@.skip(
                    i as int + 1,
                ));
            }
            i += 1;
        }
        proof {
            assert(self.libfuncs@.skip(n as int) =~= Seq::<(u64, LibfuncSignature)>::empty());
        }
        None
    }
}

} // verus!
