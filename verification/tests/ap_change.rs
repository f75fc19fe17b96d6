use sierra_ap_change::ap_change::{
    contains_cycle, contains_cycle_handle_cycle, get_ap_change, Session,
};
use sierra_ap_change::db::Db;
use sierra_ap_change::ids::{CalledFunction, FunctionId};
use sierra_ap_change::ir::{
    AnalysisError, ApChange, Block, BranchSignature, LibfuncSignature, LoweredBody,
    LoweredStatement, SierraFunction, SierraStatement,
};

fn call(c: CalledFunction) -> LoweredStatement {
    LoweredStatement::Call(c)
}

fn body(blocks: Vec<Vec<LoweredStatement>>) -> LoweredBody {
    LoweredBody {
        blocks: blocks
            .into_iter()
            .map(|statements| Block { statements })
            .collect(),
    }
}

fn sierra(stmts: Vec<SierraStatement>) -> SierraFunction {
    SierraFunction { body: stmts }
}

fn sig(changes: Vec<ApChange>) -> LibfuncSignature {
    LibfuncSignature {
        branch_signatures: changes
            .into_iter()
            .map(|ap_change| BranchSignature { ap_change })
            .collect(),
    }
}

fn known() -> ApChange {
    ApChange::Known {
        new_vars_only: false,
    }
}

#[test]
fn self_cycle_is_detected() {
    let f = FunctionId::Free(1);
    let db = Db {
        lowered: vec![(f, Ok(body(vec![vec![call(CalledFunction::Free(1))]])))],
        sierra: vec![(f, Ok(sierra(vec![])))],
        libfuncs: vec![],
    };
    assert!(db.is_consistent());
    let mut s = Session::new(db);
    assert_eq!(contains_cycle(&mut s, f), Ok(true));
    assert_eq!(get_ap_change(&mut s, f), Ok(ApChange::Unknown));
}

#[test]
fn mutual_cycle_is_detected() {
    let a = FunctionId::Free(1);
    let b = FunctionId::Free(2);
    let db = Db {
        lowered: vec![
            (a, Ok(body(vec![vec![call(CalledFunction::Free(2))]]))),
            (b, Ok(body(vec![vec![call(CalledFunction::Free(1))]]))),
        ],
        sierra: vec![(a, Ok(sierra(vec![]))), (b, Ok(sierra(vec![])))],
        libfuncs: vec![],
    };
    assert!(db.is_consistent());
    let mut s = Session::new(db);
    assert_eq!(contains_cycle(&mut s, a), Ok(true));
    assert_eq!(contains_cycle(&mut s, b), Ok(true));
    assert_eq!(get_ap_change(&mut s, a), Ok(ApChange::Unknown));
    assert_eq!(get_ap_change(&mut s, b), Ok(ApChange::Unknown));
}

#[test]
fn three_cycle_and_a_caller_into_it() {
    let a = FunctionId::Free(1);
    let b = FunctionId::Impl(2);
    let c = FunctionId::Free(3);
    let d = FunctionId::Free(4);
    let db = Db {
        lowered: vec![
            (a, Ok(body(vec![vec![call(CalledFunction::Impl(2))]]))),
            (b, Ok(body(vec![vec![call(CalledFunction::Free(3))]]))),
            (c, Ok(body(vec![vec![call(CalledFunction::Free(1))]]))),
            (d, Ok(body(vec![vec![call(CalledFunction::Free(1))]]))),
        ],
        sierra: vec![
            (a, Ok(sierra(vec![]))),
            (b, Ok(sierra(vec![]))),
            (c, Ok(sierra(vec![]))),
            (d, Ok(sierra(vec![]))),
        ],
        libfuncs: vec![],
    };
    assert!(db.is_consistent());
    let mut s = Session::new(db);
    assert_eq!(contains_cycle(&mut s, a), Ok(true));
    assert_eq!(contains_cycle(&mut s, b), Ok(true));
    assert_eq!(contains_cycle(&mut s, c), Ok(true));
    // A caller of a cyclic function is itself classified cyclic.
    assert_eq!(contains_cycle(&mut s, d), Ok(true));
    assert_eq!(get_ap_change(&mut s, d), Ok(ApChange::Unknown));
}

#[test]
fn extern_call_does_not_induce_a_cycle() {
    let f = FunctionId::Free(1);
    let db = Db {
        lowered: vec![(
            f,
            Ok(body(vec![vec![
                call(CalledFunction::Extern(7)),
                LoweredStatement::Other,
            ]])),
        )],
        sierra: vec![(
            f,
            Ok(sierra(vec![
                SierraStatement::Invocation(100),
                SierraStatement::Other,
            ])),
        )],
        libfuncs: vec![(
            100,
            sig(vec![known(), ApChange::Known { new_vars_only: true }]),
        )],
    };
    assert!(db.is_consistent());
    let mut s = Session::new(db);
    assert_eq!(contains_cycle(&mut s, f), Ok(false));
    // Even when a branch is Known with new_vars_only, the function-level
    // answer stays Known { new_vars_only: false }.
    assert_eq!(
        get_ap_change(&mut s, f),
        Ok(ApChange::Known {
            new_vars_only: false
        })
    );
}

#[test]
fn unknown_branch_propagates() {
    let f = FunctionId::Free(1);
    let db = Db {
        lowered: vec![(f, Ok(body(vec![vec![]])))],
        sierra: vec![(f, Ok(sierra(vec![SierraStatement::Invocation(5)])))],
        libfuncs: vec![(5, sig(vec![known(), ApChange::Unknown, known()]))],
    };
    assert!(db.is_consistent());
    let mut s = Session::new(db);
    assert_eq!(contains_cycle(&mut s, f), Ok(false));
    assert_eq!(get_ap_change(&mut s, f), Ok(ApChange::Unknown));
}

#[test]
fn not_implemented_branch_propagates_as_unknown() {
    let f = FunctionId::Free(1);
    let db = Db {
        lowered: vec![(f, Ok(body(vec![vec![]])))],
        sierra: vec![(f, Ok(sierra(vec![SierraStatement::Invocation(5)])))],
        libfuncs: vec![(5, sig(vec![known(), ApChange::NotImplemented, known()]))],
    };
    assert!(db.is_consistent());
    let mut s = Session::new(db);
    assert_eq!(get_ap_change(&mut s, f), Ok(ApChange::Unknown));
}

/// Two unrelated functions: `f` is recursion-free with all branches known,
/// `g` calls itself.
fn two_component_db() -> Db {
    let f = FunctionId::Free(10);
    let g = FunctionId::Free(20);
    Db {
        lowered: vec![
            (f, Ok(body(vec![vec![call(CalledFunction::Extern(1))]]))),
            (g, Ok(body(vec![vec![call(CalledFunction::Free(20))]]))),
        ],
        sierra: vec![
            (f, Ok(sierra(vec![SierraStatement::Invocation(1)]))),
            (g, Ok(sierra(vec![]))),
        ],
        libfuncs: vec![(1, sig(vec![known()]))],
    }
}

#[test]
fn query_order_does_not_change_answers() {
    let f = FunctionId::Free(10);
    let g = FunctionId::Free(20);

    let mut first = Session::new(two_component_db());
    let f_first = get_ap_change(&mut first, f);
    let g_after = get_ap_change(&mut first, g);

    let mut second = Session::new(two_component_db());
    let g_first = get_ap_change(&mut second, g);
    let f_after = get_ap_change(&mut second, f);

    assert_eq!(f_first, f_after);
    assert_eq!(g_first, g_after);
    assert_eq!(
        f_first,
        Ok(ApChange::Known {
            new_vars_only: false
        })
    );
    assert_eq!(g_first, Ok(ApChange::Unknown));
}

#[test]
fn repeated_queries_are_memoized() {
    let f = FunctionId::Free(10);
    let mut s = Session::new(two_component_db());
    assert_eq!(s.sierra_fetch_count(), 0);
    let first = get_ap_change(&mut s, f);
    assert_eq!(s.sierra_fetch_count(), 1);
    let again = get_ap_change(&mut s, f);
    // The second query returns the identical answer without the instruction
    // sequence being fetched again.
    assert_eq!(first, again);
    assert_eq!(s.sierra_fetch_count(), 1);
    // The cyclic component never fetches instructions at all.
    let g = FunctionId::Free(20);
    let _ = get_ap_change(&mut s, g);
    assert_eq!(s.sierra_fetch_count(), 1);
}

#[test]
fn unresolved_trait_call_fails_the_consistency_check() {
    let f = FunctionId::Free(1);
    let db = Db {
        lowered: vec![(
            f,
            Ok(body(vec![
                vec![LoweredStatement::Other],
                vec![call(CalledFunction::Trait(9))],
            ])),
        )],
        sierra: vec![(f, Ok(sierra(vec![])))],
        libfuncs: vec![],
    };
    // The queries must never be posed on such a session: an unresolved
    // trait call is a fatal breach of the pipeline invariant, not an error
    // value, and the query contracts exclude it.
    assert!(!db.is_consistent());
}

#[test]
fn unregistered_libfunc_fails_the_consistency_check() {
    let f = FunctionId::Free(1);
    let db = Db {
        lowered: vec![(f, Ok(body(vec![vec![]])))],
        sierra: vec![(f, Ok(sierra(vec![SierraStatement::Invocation(77)])))],
        libfuncs: vec![],
    };
    assert!(!db.is_consistent());
}

#[test]
fn missing_function_is_a_diagnosed_failure() {
    let db = Db {
        lowered: vec![],
        sierra: vec![],
        libfuncs: vec![],
    };
    assert!(db.is_consistent());
    let mut s = Session::new(db);
    let f = FunctionId::Free(9);
    assert_eq!(contains_cycle(&mut s, f), Err(AnalysisError::Diagnosed));
    assert_eq!(get_ap_change(&mut s, f), Err(AnalysisError::Diagnosed));
}

#[test]
fn diagnosed_lowering_failure_propagates() {
    let f = FunctionId::Free(1);
    let g = FunctionId::Free(2);
    let db = Db {
        lowered: vec![
            (f, Err(AnalysisError::Diagnosed)),
            (g, Ok(body(vec![vec![call(CalledFunction::Free(1))]]))),
        ],
        sierra: vec![(g, Ok(sierra(vec![])))],
        libfuncs: vec![],
    };
    assert!(db.is_consistent());
    let mut s = Session::new(db);
    assert_eq!(contains_cycle(&mut s, f), Err(AnalysisError::Diagnosed));
    // The failure propagates through a caller's scan as well.
    assert_eq!(contains_cycle(&mut s, g), Err(AnalysisError::Diagnosed));
    assert_eq!(get_ap_change(&mut s, g), Err(AnalysisError::Diagnosed));
}

#[test]
fn missing_instruction_sequence_is_a_diagnosed_failure() {
    let f = FunctionId::Free(1);
    let db = Db {
        lowered: vec![(f, Ok(body(vec![vec![]])))],
        sierra: vec![],
        libfuncs: vec![],
    };
    assert!(db.is_consistent());
    let mut s = Session::new(db);
    assert_eq!(contains_cycle(&mut s, f), Ok(false));
    assert_eq!(get_ap_change(&mut s, f), Err(AnalysisError::Diagnosed));
}

#[test]
fn cycle_found_before_a_later_failing_callee() {
    // The scan is in order and short-circuits: the self-call decides before
    // the failing callee is ever fetched.
    let f = FunctionId::Free(1);
    let e = FunctionId::Free(2);
    let db = Db {
        lowered: vec![
            (
                f,
                Ok(body(vec![vec![
                    call(CalledFunction::Free(1)),
                    call(CalledFunction::Free(2)),
                ]])),
            ),
            (e, Err(AnalysisError::Diagnosed)),
        ],
        sierra: vec![(f, Ok(sierra(vec![])))],
        libfuncs: vec![],
    };
    assert!(db.is_consistent());
    let mut s = Session::new(db);
    assert_eq!(contains_cycle(&mut s, f), Ok(true));
}

#[test]
fn empty_body_has_no_cycle_and_known_change() {
    let f = FunctionId::Impl(1);
    let db = Db {
        lowered: vec![(f, Ok(body(vec![])))],
        sierra: vec![(f, Ok(sierra(vec![])))],
        libfuncs: vec![],
    };
    assert!(db.is_consistent());
    let mut s = Session::new(db);
    assert_eq!(contains_cycle(&mut s, f), Ok(false));
    assert_eq!(
        get_ap_change(&mut s, f),
        Ok(ApChange::Known {
            new_vars_only: false
        })
    );
}

#[test]
fn libfunc_with_no_branches_is_known() {
    let f = FunctionId::Free(1);
    let db = Db {
        lowered: vec![(f, Ok(body(vec![vec![]])))],
        sierra: vec![(f, Ok(sierra(vec![SierraStatement::Invocation(3)])))],
        libfuncs: vec![(3, sig(vec![]))],
    };
    assert!(db.is_consistent());
    let mut s = Session::new(db);
    assert_eq!(
        get_ap_change(&mut s, f),
        Ok(ApChange::Known {
            new_vars_only: false
        })
    );
}

#[test]
fn cycle_fallback_answers_true() {
    let db = Db {
        lowered: vec![],
        sierra: vec![],
        libfuncs: vec![],
    };
    let f = FunctionId::Free(1);
    let stack = vec![f];
    assert_eq!(contains_cycle_handle_cycle(&db, &stack, &f), Ok(true));
}

#[test]
fn free_and_impl_identifiers_are_distinct() {
    let f = FunctionId::Free(1);
    let g = FunctionId::Impl(1);
    assert_ne!(f, g);
    let db = Db {
        lowered: vec![
            (f, Ok(body(vec![vec![call(CalledFunction::Impl(1))]]))),
            (g, Ok(body(vec![vec![]]))),
        ],
        sierra: vec![(f, Ok(sierra(vec![]))), (g, Ok(sierra(vec![])))],
        libfuncs: vec![],
    };
    assert!(db.is_consistent());
    let mut s = Session::new(db);
    // Calling the Impl function of the same number is not a self-call.
    assert_eq!(contains_cycle(&mut s, f), Ok(false));
    assert_eq!(contains_cycle(&mut s, g), Ok(false));
}
