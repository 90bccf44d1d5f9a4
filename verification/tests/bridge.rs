use lua_bridge::bridge::{
    call_verdict, install_plan, recovery_for, CallVerdict, CallbackCell, Recovery,
};

#[test]
fn zero_size_plan_allocates_nothing() {
    let p = install_plan(0);
    assert_eq!(p.cell_bytes, 0);
    assert!(!p.has_finalizer);
    assert_eq!(p.upvalues, 0);
    assert_eq!(p.recovery, Recovery::FromType);
}

#[test]
fn nonzero_size_plan_owns_a_cell() {
    let p = install_plan(16);
    assert_eq!(p.cell_bytes, 16);
    assert!(p.has_finalizer);
    assert_eq!(p.upvalues, 1);
    assert_eq!(p.recovery, Recovery::FromUpvalue);
}

#[test]
fn recovery_follows_size() {
    assert_eq!(recovery_for(0), Recovery::FromType);
    assert_eq!(recovery_for(1), Recovery::FromUpvalue);
    assert_eq!(recovery_for(4096), Recovery::FromUpvalue);
}

#[test]
fn verdict_returns_result_count_unchanged() {
    match call_verdict(Ok(2)) {
        CallVerdict::Return(n) => assert_eq!(n, 2),
        CallVerdict::Raise(_) => panic!("a reported count must be returned"),
    }
    match call_verdict(Ok(0)) {
        CallVerdict::Return(n) => assert_eq!(n, 0),
        CallVerdict::Raise(_) => panic!("a reported count must be returned"),
    }
}

#[test]
fn verdict_raises_failure_text_byte_for_byte() {
    match call_verdict(Err(String::from("attempt to index a nil value"))) {
        CallVerdict::Raise(t) => assert_eq!(t, "attempt to index a nil value"),
        CallVerdict::Return(_) => panic!("a failure must be raised"),
    }
}

#[test]
fn verdict_raises_empty_failure_text_empty() {
    match call_verdict(Err(String::new())) {
        CallVerdict::Raise(t) => assert_eq!(t, ""),
        CallVerdict::Return(_) => panic!("a failure must be raised"),
    }
}

#[test]
fn invoked_then_collected_cell_is_finalized() {
    let mut cell = CallbackCell::install(16);
    assert_eq!(cell.size_bytes(), 16);
    assert!(!cell.is_finalized());
    cell.record_invoke();
    cell.record_invoke();
    assert!(!cell.is_finalized());
    cell.record_finalize();
    assert!(cell.is_finalized());
}

#[test]
fn zero_size_cell_is_never_finalized() {
    let mut cell = CallbackCell::install(0);
    cell.record_invoke();
    cell.record_invoke();
    assert!(!cell.is_finalized());
    assert_eq!(cell.size_bytes(), 0);
}

#[test]
fn zero_size_invocation_matches_direct_call() {
    // A capture-free callback reporting two results: the trampoline's
    // verdict carries the same count the callback reports directly.
    let direct: i32 = 2;
    match call_verdict(Ok(direct)) {
        CallVerdict::Return(n) => assert_eq!(n, direct),
        CallVerdict::Raise(_) => panic!("a reported count must be returned"),
    }
}
