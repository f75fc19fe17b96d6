//! The two analysis queries and their cycle-safe memoized evaluation.
//!
//! `contains_cycle` decides whether evaluating a function's call graph ever
//! re-enters a function that is still being evaluated; `get_ap_change`
//! classifies a function's aggregate effect on the allocation pointer and
//! uses the cycle check as its guard.  Both are memoized per session.
//!
//! The meaning of the queries is given by the spec functions `cycle_query`,
//! `cycle_in_blocks` and `cycle_in_statements`, which describe the
//! demand-driven evaluation literally: an in-flight stack of the functions
//! whose evaluation has started and not yet finished travels down the
//! recursion, and a query for a function already on that stack does not
//! recurse further — it resolves to `true` for every participant of the
//! detected cycle, because a re-entrant dependency proves the call graph
//! cyclic regardless of the particular path.

use vstd::prelude::*;
use vstd::seq_lib::lemma_seq_contains_after_push;

use crate::db::{assoc, lemma_assoc_is_entry, Db};
use crate::ids::{CalledFunction, FunctionId};
use crate::ir::{
    AnalysisError, ApChange, Block, LibfuncSignature, LoweredBody, LoweredStatement,
    SierraStatement,
};

verus! {

/// How many functions of the lowered-body table are not yet on the in-flight
/// stack.  Each recursive step of the evaluation puts one more of them on
/// the stack, so this is its termination measure.
pub open spec fn pending_count(
    entries: Seq<(FunctionId, Result<LoweredBody, AnalysisError>)>,
    in_flight: Seq<FunctionId>,
) -> nat
    decreases entries.len(),
{
    if entries.len() == 0 {
        0
    } else {
        (if in_flight.contains(entries[0].0) {
            0nat
        } else {
            1nat
        }) + pending_count(entries.drop_first(), in_flight)
    }
}

/// Growing the in-flight stack never increases the number of pending
/// functions.
pub proof fn lemma_pending_not_increasing(
    entries: Seq<(FunctionId, Result<LoweredBody, AnalysisError>)>,
    in_flight: Seq<FunctionId>,
    f: FunctionId,
)
    ensures
        pending_count(entries, in_flight.push(f)) <= pending_count(entries, in_flight),
    decreases entries.len(),
{
    broadcast use lemma_seq_contains_after_push;

    if entries.len() > 0 {
        lemma_pending_not_increasing(entries.drop_first(), in_flight, f);
    }
}

/// Pushing a function of the table that was not yet in flight strictly
/// shrinks the number of pending functions.
pub proof fn lemma_pending_decreases(
    entries: Seq<(FunctionId, Result<LoweredBody, AnalysisError>)>,
    in_flight: Seq<FunctionId>,
    f: FunctionId,
)
    ensures
        !in_flight.contains(f) && assoc(entries, f) is Some ==> pending_count(
            entries,
            in_flight.push(f),
        ) < pending_count(entries, in_flight),
    decreases entries.len(),
{
    broadcast use lemma_seq_contains_after_push;

    if entries.len() > 0 {
        if entries[0].0 == f {
            lemma_pending_not_increasing(entries.drop_first(), in_flight, f);
        } else {
            lemma_pending_decreases(entries.drop_first(), in_flight, f);
        }
    }
}

/// The result of asking, with the given in-flight stack, whether evaluating
/// `f` re-enters a function that is still being evaluated.
///
/// A query for a function already in flight is the re-entrant case: it
/// resolves to `true` without recursing (see `contains_cycle_handle_cycle`).
/// Otherwise the function's lowered body is fetched — a failure diagnosed
/// there propagates unchanged — and its statements are scanned in order.
pub open spec fn cycle_query(db: Db, in_flight: Seq<FunctionId>, f: FunctionId) -> Result<
    bool,
    AnalysisError,
>
    decreases pending_count(db.lowered@, in_flight), 0int, 0int,
{
    if in_flight.contains(f) {
        Ok(true)
    } else {
        match assoc(db.lowered@, f) {
            None => Err(AnalysisError::Diagnosed),
            Some(Err(e)) => Err(e),
            Some(Ok(body)) => {
                proof {
                    lemma_pending_decreases(db.lowered@, in_flight, f);
                }
                cycle_in_blocks(db, in_flight.push(f), body.blocks@, 0)
            },
        }
    }
}

/// Scan of the blocks of a lowered body from block `i` on: the first block
/// whose scan does not answer `Ok(false)` decides, in order.
pub open spec fn cycle_in_blocks(
    db: Db,
    in_flight: Seq<FunctionId>,
    blocks: Seq<Block>,
    i: int,
) -> Result<bool, AnalysisError>
    decreases pending_count(db.lowered@, in_flight), 2int, blocks.len() - i,
{
    if i < 0 || i >= blocks.len() {
        Ok(false)
    } else {
        match cycle_in_statements(db, in_flight, blocks[i].statements@, 0) {
            Ok(false) => cycle_in_blocks(db, in_flight, blocks, i + 1),
            r => r,
        }
    }
}

/// Scan of one block's statements from statement `j` on.  A call to a
/// function with a body queries that callee and short-circuits on `Ok(true)`
/// or on a failure; an extern call is terminal and is skipped.  The
/// unresolved-trait-call arm is immaterial: the queries require inputs on
/// which it cannot be reached (`Db::consistent`), since such a call is a
/// fatal breach of the pipeline's invariant, not a result.
pub open spec fn cycle_in_statements(
    db: Db,
    in_flight: Seq<FunctionId>,
    stmts: Seq<LoweredStatement>,
    j: int,
) -> Result<bool, AnalysisError>
    decreases pending_count(db.lowered@, in_flight), 1int, stmts.len() - j,
{
    if j < 0 || j >= stmts.len() {
        Ok(false)
    } else {
        match stmts[j] {
            LoweredStatement::Other => cycle_in_statements(db, in_flight, stmts, j + 1),
            LoweredStatement::Call(c) => match c.body_id() {
                None => if c matches CalledFunction::Trait(_) {
                    Err(AnalysisError::Diagnosed)
                } else {
                    cycle_in_statements(db, in_flight, stmts, j + 1)
                },
                Some(g) => match cycle_query(db, in_flight, g) {
                    Ok(true) => Ok(true),
                    Ok(false) => cycle_in_statements(db, in_flight, stmts, j + 1),
                    Err(e) => Err(e),
                },
            },
        }
    }
}

/// What `contains_cycle` returns for `f`: the demand-driven evaluation
/// started with an empty in-flight stack.  This is a function of the
/// session's inputs alone, which is what makes the analysis confluent.
pub open spec fn spec_contains_cycle(db: Db, f: FunctionId) -> Result<bool, AnalysisError> {
    cycle_query(db, Seq::empty(), f)
}

/// Scan of a generated instruction sequence from statement `j` on: the
/// first invocation with a branch whose AP change is `Unknown` or
/// `NotImplemented` makes the whole function `Unknown`; if every branch of
/// every invocation is statically known, the function is `Known` with
/// `new_vars_only` conservatively `false`.  The unregistered-libfunc arm is
/// immaterial: the queries require inputs on which it cannot be reached
/// (`Db::consistent`).
pub open spec fn ap_change_in_statements(db: Db, stmts: Seq<SierraStatement>, j: int) -> Result<
    ApChange,
    AnalysisError,
>
    decreases stmts.len() - j,
{
    if j < 0 || j >= stmts.len() {
        Ok(ApChange::Known { new_vars_only: false })
    } else {
        match stmts[j] {
            SierraStatement::Other => ap_change_in_statements(db, stmts, j + 1),
            SierraStatement::Invocation(l) => match assoc(db.libfuncs@, l) {
                None => Err(AnalysisError::Diagnosed),
                Some(sig) => if sig.all_branches_known() {
                    ap_change_in_statements(db, stmts, j + 1)
                } else {
                    Ok(ApChange::Unknown)
                },
            },
        }
    }
}

/// Whether `f` is on the in-flight stack.
fn flight_contains(in_flight: &Vec<FunctionId>, f: FunctionId) -> (b: bool)
    ensures
        b == in_flight@.contains(f),
{
    let n = in_flight.len();
    let mut i: usize = 0;
    while i < n
        invariant
            n == in_flight@.len(),
            i <= n,
            forall|k: int| 0 <= k < i ==> in_flight@[k] != f,
        decreases n - i,
    {
        if in_flight[i] == f {
            proof {
                assert(in_flight@.contains(f)) by {
                    assert(in_flight@[i as int] == f);
                }
            }
            return true;
        }
        i += 1;
    }
    false
}

/// A copy of the in-flight stack with `f` pushed on top.
fn flight_push(in_flight: &Vec<FunctionId>, f: FunctionId) -> (r: Vec<FunctionId>)
    ensures
        r@ == in_flight@.push(f),
{
    let n = in_flight.len();
    let mut r: Vec<FunctionId> = Vec::new();
    let mut i: usize = 0;
    while i < n
        invariant
            n == in_flight@.len(),
            i <= n,
            r@ == in_flight@.subrange(0, i as int),
        decreases n - i,
    {
        r.push(in_flight[i]);
        proof {
            assert(r@ =~= in_flight@.subrange(0, i as int + 1));
        }
        i += 1;
    }
    r.push(f);
    proof {
        assert(in_flight@.subrange(0, n as int) =~= in_flight@);
    }
    r
}

/// Cycle resolution for `contains_cycle`: when the query engine detects
/// that the requested function is already in flight, the answer for every
/// participant of the cycle is that it contains a cycle, regardless of which
/// functions form it.
pub fn contains_cycle_handle_cycle(
    _db: &Db,
    _cycle: &Vec<FunctionId>,
    _function_id: &FunctionId,
) -> (r: Result<bool, AnalysisError>)
    ensures
        r == Ok::<bool, AnalysisError>(true),
{
    Ok(true)
}

/// The demand-driven evaluation of the cycle query, mirroring
/// `cycle_query` step for step.
fn eval_cycle_query(db: &Db, in_flight: &Vec<FunctionId>, f: FunctionId) -> (r: Result<
    bool,
    AnalysisError,
>)
    ensures
        r == cycle_query(*db, in_flight@, f),
    decreases pending_count(db.lowered@, in_flight@), 0int,
{
    if flight_contains(in_flight, f) {
        return contains_cycle_handle_cycle(db, in_flight, &f);
    }
    match db.lowered_entry(f) {
        None => Err(AnalysisError::Diagnosed),
        Some(entry) => match entry {
            Err(e) => Err(*e),
            Ok(body) => {
                let extended = flight_push(in_flight, f);
                proof {
                    lemma_pending_decreases(db.lowered@, in_flight@, f);
                }
                eval_cycle_blocks(db, &extended, &body.blocks)
            },
        },
    }
}

/// Scan of a lowered body's blocks, mirroring `cycle_in_blocks`.
fn eval_cycle_blocks(db: &Db, in_flight: &Vec<FunctionId>, blocks: &Vec<Block>) -> (r: Result<
    bool,
    AnalysisError,
>)
    ensures
        r == cycle_in_blocks(*db, in_flight@, blocks@, 0),
    decreases pending_count(db.lowered@, in_flight@), 2int,
{
    let n = blocks.len();
    let mut i: usize = 0;
    while i < n
        invariant
            n == blocks@.len(),
            i <= n,
            cycle_in_blocks(*db, in_flight@, blocks@, 0) == cycle_in_blocks(
                *db,
                in_flight@,
                blocks@,
                i as int,
            ),
        decreases n - i,
    {
        let r = eval_cycle_statements(db, in_flight, &blocks[i].statements);
        match r {
            Ok(false) => {
                i += 1;
            },
            _ => {
                return r;
            },
        }
    }
    Ok(false)
}

/// Scan of one block's statements, mirroring `cycle_in_statements`.  The
/// unresolved-trait-call arm cannot be reached from the public queries,
/// which require a consistent session.
fn eval_cycle_statements(
    db: &Db,
    in_flight: &Vec<FunctionId>,
    stmts: &Vec<LoweredStatement>,
) -> (r: Result<bool, AnalysisError>)
    ensures
        r == cycle_in_statements(*db, in_flight@, stmts@, 0),
    decreases pending_count(db.lowered@, in_flight@), 1int,
{
    let n = stmts.len();
    let mut j: usize = 0;
    while j < n
        invariant
            n == stmts@.len(),
            j <= n,
            cycle_in_statements(*db, in_flight@, stmts@, 0) == cycle_in_statements(
                *db,
                in_flight@,
                stmts@,
                j as int,
            ),
        decreases n - j,
    {
        match &stmts[j] {
            LoweredStatement::Other => {
                j += 1;
            },
            LoweredStatement::Call(c) => {
                let callee: Option<FunctionId> = match c {
                    CalledFunction::Free(id) => Some(FunctionId::Free(*id)),
                    CalledFunction::Impl(id) => Some(FunctionId::Impl(*id)),
                    CalledFunction::Extern(_) => None,
                    CalledFunction::Trait(_) => {
                        return Err(AnalysisError::Diagnosed);
                    },
                };
                match callee {
                    None => {
                        j += 1;
                    },
                    Some(g) => {
                        let r = eval_cycle_query(db, in_flight, g);
                        match r {
                            Ok(false) => {
                                j += 1;
                            },
                            _ => {
                                return r;
                            },
                        }
                    },
                }
            },
        }
    }
    Ok(false)
}

/// Scan of a generated instruction sequence, mirroring
/// `ap_change_in_statements`.  The unregistered-libfunc arm cannot be
/// reached from the public queries, which require a consistent session.
fn eval_ap_change_statements(db: &Db, stmts: &Vec<SierraStatement>) -> (r: Result<
    ApChange,
    AnalysisError,
>)
    ensures
        r == ap_change_in_statements(*db, stmts@, 0),
{
    let n = stmts.len();
    let mut j: usize = 0;
    while j < n
        invariant
            n == stmts@.len(),
            j <= n,
            ap_change_in_statements(*db, stmts@, 0) == ap_change_in_statements(
                *db,
                stmts@,
                j as int,
            ),
        decreases n - j,
    {
        match &stmts[j] {
            SierraStatement::Other => {
                j += 1;
            },
            SierraStatement::Invocation(l) => match db.libfunc_entry(*l) {
                None => {
                    return Err(AnalysisError::Diagnosed);
                },
                Some(sig) => {
                    if all_branches_known(sig) {
                        j += 1;
                    } else {
                        return Ok(ApChange::Unknown);
                    }
                },
            },
        }
    }
    Ok(ApChange::Known { new_vars_only: false })
}

/// Whether every branch of a libfunc signature has a statically known AP
/// change.
fn all_branches_known(sig: &LibfuncSignature) -> (b: bool)
    ensures
        b == sig.all_branches_known(),
{
    let n = sig.branch_signatures.len();
    let mut k: usize = 0;
    while k < n
        invariant
            n == sig.branch_signatures@.len(),
            k <= n,
            forall|m: int|
                0 <= m < k ==> (#[trigger] sig.branch_signatures@[m].ap_change) matches
                    ApChange::Known { .. },
        decreases n - k,
    {
        match sig.branch_signatures[k].ap_change {
            ApChange::Known { .. } => {
                k += 1;
            },
            _ => {
                return false;
            },
        }
    }
    true
}

/// What `get_ap_change` returns for `f`.  A function whose call graph is
/// cyclic is `Unknown` without its instructions being inspected: a static
/// AP delta cannot be guaranteed for recursion, and pre-empting the
/// recursive query here is what keeps the evaluation from re-entering
/// itself.  Otherwise the generated instruction sequence decides.
pub open spec fn spec_get_ap_change(db: Db, f: FunctionId) -> Result<ApChange, AnalysisError> {
    match spec_contains_cycle(db, f) {
        Err(e) => Err(e),
        Ok(true) => Ok(ApChange::Unknown),
        Ok(false) => match assoc(db.sierra@, f) {
            None => Err(AnalysisError::Diagnosed),
            Some(Err(e)) => Err(e),
            Some(Ok(fun)) => ap_change_in_statements(db, fun.body@, 0),
        },
    }
}

/// Appending an entry to an association list never changes a lookup that
/// already succeeded, and a lookup that failed afterwards finds exactly the
/// appended entry.
proof fn lemma_assoc_push<K, V>(entries: Seq<(K, V)>, key: K, entry: (K, V))
    ensures
        assoc(entries, key) is Some ==> assoc(entries.push(entry), key) == assoc(entries, key),
        assoc(entries, key) is None && entry.0 == key ==> assoc(entries.push(entry), key) == Some(
            entry.1,
        ),
        assoc(entries, key) is None && entry.0 != key ==> assoc(entries.push(entry), key) is None,
    decreases entries.len(),
{
    if entries.len() > 0 {
        assert(entries.push(entry).drop_first() =~= entries.drop_first().push(entry));
        lemma_assoc_push(entries.drop_first(), key, entry);
    } else {
        assert(entries.push(entry).drop_first() =~= Seq::<(K, V)>::empty());
        assert(entries.push(entry)[0] == entry);
        assert(assoc(Seq::<(K, V)>::empty(), key) is None);
    }
}

/// One compilation session: the immutable results of the earlier passes,
/// the memo tables of the two queries, and a counter of how often a
/// generated instruction sequence was fetched.  The memo tables are
/// populated lazily and append-only; a memoized answer is never recomputed
/// or invalidated within the session.
pub struct Session {
    db: Db,
    cycle_memo: Vec<(FunctionId, Result<bool, AnalysisError>)>,
    ap_memo: Vec<(FunctionId, Result<ApChange, AnalysisError>)>,
    sierra_fetches: u64,
}

impl Session {
    /// The session's read-only inputs.
    pub closed spec fn spec_db(self) -> Db {
        self.db
    }

    /// The memoized `contains_cycle` answer for `f`, if it was queried.
    pub closed spec fn cycle_memo_value(self, f: FunctionId) -> Option<
        Result<bool, AnalysisError>,
    > {
        assoc(self.cycle_memo@, f)
    }

    /// Whether `contains_cycle` was already queried for `f`.
    pub closed spec fn cycle_memoized(self, f: FunctionId) -> bool {
        self.cycle_memo_value(f) is Some
    }

    /// The memoized `get_ap_change` answer for `f`, if it was queried.
    pub closed spec fn ap_memo_value(self, f: FunctionId) -> Option<
        Result<ApChange, AnalysisError>,
    > {
        assoc(self.ap_memo@, f)
    }

    /// Whether `get_ap_change` was already queried for `f`.
    pub closed spec fn ap_memoized(self, f: FunctionId) -> bool {
        self.ap_memo_value(f) is Some
    }

    /// How many times a generated instruction sequence was fetched so far.
    /// A memoized query never fetches again, which makes memoization
    /// observable from outside.
    pub closed spec fn spec_sierra_fetches(self) -> u64 {
        self.sierra_fetches
    }

    /// The session invariant: every memoized answer is exactly what the
    /// evaluation of that query over the session's inputs returns.
    pub closed spec fn wf(self) -> bool {
        &&& forall|i: int|
            0 <= i < self.cycle_memo@.len() ==> (#[trigger] self.cycle_memo@[i]).1
                == spec_contains_cycle(self.db, self.cycle_memo@[i].0)
        &&& forall|i: int|
            0 <= i < self.ap_memo@.len() ==> (#[trigger] self.ap_memo@[i]).1 == spec_get_ap_change(
                self.db,
                self.ap_memo@[i].0,
            )
    }

    /// Open a fresh session over the given inputs, with nothing memoized.
    pub fn new(db: Db) -> (s: Session)
        ensures
            s.wf(),
            s.spec_db() == db,
            forall|f: FunctionId| !s.cycle_memoized(f) && !s.ap_memoized(f),
            s.spec_sierra_fetches() == 0,
    {
        Session { db, cycle_memo: Vec::new(), ap_memo: Vec::new(), sierra_fetches: 0 }
    }

    /// How many times a generated instruction sequence was fetched.
    pub fn sierra_fetch_count(&self) -> (n: u64)
        ensures
            n == self.spec_sierra_fetches(),
    {
        self.sierra_fetches
    }
}

/// A memoized cycle answer holds exactly what recomputing the query over
/// the session's inputs would return.
pub proof fn lemma_cycle_memo_faithful(s: Session, f: FunctionId)
    requires
        s.wf(),
        s.cycle_memoized(f),
    ensures
        s.cycle_memo_value(f) == Some(spec_contains_cycle(s.spec_db(), f)),
{
    lemma_assoc_is_entry(s.cycle_memo@, f);
}

/// A memoized AP-change answer holds exactly what recomputing the query
/// over the session's inputs would return.
pub proof fn lemma_ap_memo_faithful(s: Session, f: FunctionId)
    requires
        s.wf(),
        s.ap_memoized(f),
    ensures
        s.ap_memo_value(f) == Some(spec_get_ap_change(s.spec_db(), f)),
{
    lemma_assoc_is_entry(s.ap_memo@, f);
}

/// Confluence of the analysis: because every answer is a function of the
/// session's inputs alone, two sessions over the same inputs agree on every
/// answer they both memoized, no matter which queries were posed first in
/// either of them.
pub proof fn lemma_confluence(s1: Session, s2: Session, f: FunctionId)
    requires
        s1.wf(),
        s2.wf(),
        s1.spec_db() == s2.spec_db(),
    ensures
        s1.cycle_memoized(f) && s2.cycle_memoized(f) ==> s1.cycle_memo_value(f)
            == s2.cycle_memo_value(f),
        s1.ap_memoized(f) && s2.ap_memoized(f) ==> s1.ap_memo_value(f) == s2.ap_memo_value(f),
{
    if s1.cycle_memoized(f) && s2.cycle_memoized(f) {
        lemma_cycle_memo_faithful(s1, f);
        lemma_cycle_memo_faithful(s2, f);
    }
    if s1.ap_memoized(f) && s2.ap_memoized(f) {
        lemma_ap_memo_faithful(s1, f);
        lemma_ap_memo_faithful(s2, f);
    }
}

/// First-match lookup in the cycle memo table.
fn cycle_memo_get(memo: &Vec<(FunctionId, Result<bool, AnalysisError>)>, f: FunctionId) -> (r:
    Option<Result<bool, AnalysisError>>)
    ensures
        r == assoc(memo@, f),
{
    let n = memo.len();
    let mut i: usize = 0;
    proof {
        assert(memo@.skip(0) =~= memo@);
    }
    while i < n
        invariant
            n == memo@.len(),
            i <= n,
            assoc(memo@, f) == assoc(memo@.skip(i as int), f),
        decreases n - i,
    {
        if memo[i].0 == f {
            proof {
                assert(memo@.skip(i as int)[0] == memo@[i as int]);
            }
            return Some(memo[i].1);
        }
        proof {
            assert(memo@.skip(i as int).drop_first() =~= memo@.skip(i as int + 1));
        }
        i += 1;
    }
    proof {
        assert(memo@.skip(n as int) =~= Seq::<(FunctionId, Result<bool, AnalysisError>)>::empty());
    }
    None
}

/// First-match lookup in the AP-change memo table.
fn ap_memo_get(memo: &Vec<(FunctionId, Result<ApChange, AnalysisError>)>, f: FunctionId) -> (r:
    Option<Result<ApChange, AnalysisError>>)
    ensures
        r == assoc(memo@, f),
{
    let n = memo.len();
    let mut i: usize = 0;
    proof {
        assert(memo@.skip(0) =~= memo@);
    }
    while i < n
        invariant
            n == memo@.len(),
            i <= n,
            assoc(memo@, f) == assoc(memo@.skip(i as int), f),
        decreases n - i,
    {
        if memo[i].0 == f {
            proof {
                assert(memo@.skip(i as int)[0] == memo@[i as int]);
            }
            return Some(memo[i].1);
        }
        proof {
            assert(memo@.skip(i as int).drop_first() =~= memo@.skip(i as int + 1));
        }
        i += 1;
    }
    proof {
        assert(memo@.skip(n as int) =~= Seq::<
            (FunctionId, Result<ApChange, AnalysisError>),
        >::empty());
    }
    None
}

/// Query implementation of `contains_cycle`: whether evaluating
/// `function_id` requires (transitively) re-evaluating itself, that is,
/// whether its call graph is cyclic.  The answer is memoized; later queries
/// for the same function return it without touching the IR again.
///
/// The session must be consistent (`Db::consistent`): an unresolved trait
/// call discovered during the scan would be a fatal internal failure of the
/// pipeline, not a result.
pub fn contains_cycle(session: &mut Session, function_id: FunctionId) -> (r: Result<
    bool,
    AnalysisError,
>)
    requires
        old(session).wf(),
        old(session).spec_db().consistent(),
    ensures
        final(session).wf(),
        final(session).spec_db() == old(session).spec_db(),
        final(session).spec_sierra_fetches() == old(session).spec_sierra_fetches(),
        final(session).cycle_memoized(function_id),
        forall|g: FunctionId|
            old(session).cycle_memoized(g) ==> final(session).cycle_memo_value(g) == old(
                session,
            ).cycle_memo_value(g),
        forall|g: FunctionId|
            final(session).ap_memo_value(g) == old(session).ap_memo_value(g),
        r == spec_contains_cycle(old(session).spec_db(), function_id),
{
    match cycle_memo_get(&session.cycle_memo, function_id) {
        Some(r) => {
            proof {
                lemma_cycle_memo_faithful(*session, function_id);
            }
            r
        },
        None => {
            let empty: Vec<FunctionId> = Vec::new();
            let r = eval_cycle_query(&session.db, &empty, function_id);
            proof {
                assert(empty@ =~= Seq::<FunctionId>::empty());
            }
            session.cycle_memo.push((function_id, r));
            proof {
                lemma_assoc_push(
                    old(session).cycle_memo@,
                    function_id,
                    (function_id, r),
                );
                assert forall|g: FunctionId| old(session).cycle_memoized(g) implies assoc(
                    session.cycle_memo@,
                    g,
                ) == assoc(old(session).cycle_memo@, g) by {
                    lemma_assoc_push(old(session).cycle_memo@, g, (function_id, r));
                }
            }
            r
        },
    }
}

/// Query implementation of `get_ap_change`: the classification of
/// `function_id`'s aggregate effect on the allocation pointer.  A function
/// whose call graph is cyclic is `Unknown` without its instructions being
/// fetched; checking for cycles first is what keeps this query from
/// re-entering itself through the providers it consumes.  The answer is
/// memoized; a later query for the same function returns it without
/// fetching the instruction sequence again, observable through
/// `Session::sierra_fetch_count`.
///
/// The session must be consistent (`Db::consistent`), as for
/// `contains_cycle`.
pub fn get_ap_change(session: &mut Session, function_id: FunctionId) -> (r: Result<
    ApChange,
    AnalysisError,
>)
    requires
        old(session).wf(),
        old(session).spec_db().consistent(),
    ensures
        final(session).wf(),
        final(session).spec_db() == old(session).spec_db(),
        final(session).ap_memoized(function_id),
        forall|g: FunctionId|
            old(session).ap_memoized(g) ==> final(session).ap_memo_value(g) == old(
                session,
            ).ap_memo_value(g),
        forall|g: FunctionId|
            old(session).cycle_memoized(g) ==> final(session).cycle_memo_value(g) == old(
                session,
            ).cycle_memo_value(g),
        r == spec_get_ap_change(old(session).spec_db(), function_id),
        old(session).ap_memoized(function_id) ==> final(session).spec_sierra_fetches() == old(
            session,
        ).spec_sierra_fetches(),
{
    match ap_memo_get(&session.ap_memo, function_id) {
        Some(r) => {
            proof {
                lemma_ap_memo_faithful(*session, function_id);
            }
            r
        },
        None => {
            let c = contains_cycle(session, function_id);
            let ghost mid = *session;
            let r = match c {
                Err(e) => Err(e),
                Ok(true) => Ok(ApChange::Unknown),
                Ok(false) => {
                    if session.sierra_fetches < u64::MAX {
                        session.sierra_fetches = session.sierra_fetches + 1;
                    }
                    match session.db.sierra_entry(function_id) {
                        None => Err(AnalysisError::Diagnosed),
                        Some(entry) => match entry {
                            Err(e) => Err(*e),
                            Ok(fun) => eval_ap_change_statements(&session.db, &fun.body),
                        },
                    }
                },
            };
            session.ap_memo.push((function_id, r));
            proof {
                assert forall|g: FunctionId| old(session).ap_memoized(g) implies assoc(
                    session.ap_memo@,
                    g,
                ) == assoc(old(session).ap_memo@, g) by {
                    lemma_assoc_push(mid.ap_memo@, g, (function_id, r));
                }
                lemma_assoc_push(mid.ap_memo@, function_id, (function_id, r));
            }
            r
        },
    }
}

} // verus!
