use pink_drink::mode::{effective_mode, exec_in_mode, ModeScope};
use pink_drink::runtime::PinkRuntime;
use pink_drink::types::ExecMode;

#[test]
fn no_mode_bound_means_query() {
    let scope = ModeScope::new();
    assert_eq!(scope.current(), None);
    assert_eq!(scope.effective(), ExecMode::Query);
    assert!(!scope.is_in_transaction());
    assert_eq!(effective_mode(None), ExecMode::Query);
    assert_eq!(effective_mode(Some(ExecMode::Transaction)), ExecMode::Transaction);
    assert_eq!(effective_mode(Some(ExecMode::Query)), ExecMode::Query);
}

#[test]
fn the_bound_mode_is_seen_inside_and_gone_outside() {
    let mut scope = ModeScope::new();
    let seen = exec_in_mode(&mut scope, ExecMode::Transaction, |s: &mut ModeScope| {
        (s.current(), s.is_in_transaction(), s.depth())
    });
    assert_eq!(seen, (Some(ExecMode::Transaction), true, 1));
    assert_eq!(scope.current(), None);
    assert_eq!(scope.depth(), 0);
}

#[test]
fn inside_a_query_is_no_transaction() {
    let mut scope = ModeScope::new();
    let in_tx = PinkRuntime::execute_in_mode(&mut scope, ExecMode::Query, |s: &mut ModeScope| {
        s.is_in_transaction()
    });
    assert!(!in_tx);
    let in_tx = PinkRuntime::execute_in_mode(&mut scope, ExecMode::Transaction, |s: &mut ModeScope| {
        s.is_in_transaction()
    });
    assert!(in_tx);
}

#[test]
fn nested_bindings_unwind_in_order() {
    let mut scope = ModeScope::new();
    let trail = exec_in_mode(&mut scope, ExecMode::Transaction, |outer: &mut ModeScope| {
        let before = outer.current();
        let inner = exec_in_mode(outer, ExecMode::Query, |s: &mut ModeScope| {
            (s.current(), s.bindings())
        });
        let after = outer.current();
        (before, inner, after)
    });
    assert_eq!(trail.0, Some(ExecMode::Transaction));
    assert_eq!((trail.1).0, Some(ExecMode::Query));
    assert_eq!((trail.1).1, vec![ExecMode::Transaction, ExecMode::Query]);
    assert_eq!(trail.2, Some(ExecMode::Transaction));
    assert_eq!(scope.bindings(), Vec::<ExecMode>::new());
}

#[test]
fn the_scope_is_restored_whatever_the_call_did_to_it() {
    let mut scope = ModeScope::new();
    scope.enter(ExecMode::Query);
    exec_in_mode(&mut scope, ExecMode::Transaction, |s: &mut ModeScope| {
        s.leave();
        s.leave();
        s.enter(ExecMode::Transaction);
        s.enter(ExecMode::Transaction);
        s.enter(ExecMode::Transaction);
    });
    assert_eq!(scope.bindings(), vec![ExecMode::Query]);
    let failed: Result<(), String> = exec_in_mode(&mut scope, ExecMode::Transaction, |_s: &mut ModeScope| {
        Err("failed".to_string())
    });
    assert_eq!(failed, Err("failed".to_string()));
    assert_eq!(scope.bindings(), vec![ExecMode::Query]);
}

#[test]
fn enter_and_leave_push_and_pop() {
    let mut scope = ModeScope::new();
    assert_eq!(scope.leave(), None);
    assert_eq!(scope.depth(), 0);
    scope.enter(ExecMode::Query);
    scope.enter(ExecMode::Transaction);
    assert_eq!(scope.depth(), 2);
    assert_eq!(scope.current(), Some(ExecMode::Transaction));
    assert_eq!(scope.leave(), Some(ExecMode::Transaction));
    assert_eq!(scope.current(), Some(ExecMode::Query));
    assert_eq!(scope.leave(), Some(ExecMode::Query));
    assert_eq!(scope.current(), None);
}
