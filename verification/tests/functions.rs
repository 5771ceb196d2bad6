use fe_mir_inst::functions::{
    call_arg, check_stmt, emit, func_def, func_def_arg, func_def_checked, func_return, func_stmt,
    validate_all_paths_return_or_revert, validate_no_path_returns, FixedSize, FuncQual,
    FuncStmtKind, FunctionDef, ParamBinding, ParamVar, SemanticError, StmtAction, StmtAnalysis,
};

#[derive(Debug, Clone, Copy, PartialEq, Eq)]
enum Base {
    U256,
    Bool,
}

const RET: FuncStmtKind = FuncStmtKind::Return { has_value: true };

fn foo_def() -> FunctionDef<Base> {
    FunctionDef {
        name: "foo".to_string(),
        is_public: false,
        param_types: vec![Base::U256],
        return_type: Some(Base::U256),
    }
}

#[test]
fn func_def_registers_private_function() {
    // def foo(x: u256) -> u256: return x + x
    let r = func_def(None, "foo".to_string(), vec![Ok(Base::U256)], Some(Ok(Base::U256)), &[RET], &vec![Ok(())]);
    assert_eq!(r, (Some(foo_def()), Ok(())));
}

#[test]
fn func_def_reports_failing_statement_and_keeps_registration() {
    // def foo(x: u256) -> u256: return x + x, where the returned value's type
    // is not the declared one
    let stmt = func_return(Ok(false), true);
    assert_eq!(stmt, Err(SemanticError::TypeError));
    let r = func_def(None, "foo".to_string(), vec![Ok(Base::U256)], Some(Ok(Base::U256)), &[RET], &vec![stmt]);
    assert_eq!(r, (Some(foo_def()), Err(SemanticError::TypeError)));

    let body = [FuncStmtKind::VarDecl, FuncStmtKind::Assign, RET];
    let results = vec![Ok(()), Err(SemanticError::UnexpectedReturn), Err(SemanticError::TypeError)];
    let r = func_def(None, "foo".to_string(), vec![Ok(Base::U256)], Some(Ok(Base::U256)), &body, &results);
    assert_eq!(r, (Some(foo_def()), Err(SemanticError::UnexpectedReturn)));
}

#[test]
fn func_def_stops_before_unhandled_statement() {
    // A bare `return` after a failing statement is never reached.
    let body = [FuncStmtKind::Assign, FuncStmtKind::Return { has_value: false }, FuncStmtKind::Revert];
    let results = vec![Err(SemanticError::TypeError), Ok(()), Ok(())];
    let r = func_def(None, "foo".to_string(), vec![], Some(Ok(Base::Bool)), &body, &results);
    assert_eq!(r.1, Err(SemanticError::TypeError));
    assert!(r.0.is_some());
}

#[test]
fn func_def_registers_public_function_without_return() {
    let body = [FuncStmtKind::VarDecl, FuncStmtKind::Emit];
    let r = func_def(Some(FuncQual::Pub), "bar".to_string(), vec![Ok(Base::Bool), Ok(Base::U256)], None, &body, &vec![Ok(()), Ok(())]);
    assert_eq!(
        r,
        (
            Some(FunctionDef {
                name: "bar".to_string(),
                is_public: true,
                param_types: vec![Base::Bool, Base::U256],
                return_type: None,
            }),
            Ok(())
        )
    );
}

#[test]
fn func_def_missing_return() {
    let r = func_def(None, "f".to_string(), vec![], Some(Ok(Base::U256)), &[FuncStmtKind::Assign], &vec![Ok(())]);
    assert_eq!(r, (None, Err(SemanticError::MissingReturn)));
    let r = func_def(None, "f".to_string(), vec![], Some(Ok(Base::U256)), &[FuncStmtKind::Assign, FuncStmtKind::Revert], &vec![Ok(()), Ok(())]);
    assert_eq!(r.1, Ok(()));
    assert!(r.0.is_some());
}

#[test]
fn func_def_unexpected_return() {
    let r = func_def(None, "f".to_string(), vec![Ok(Base::Bool)], None, &[FuncStmtKind::VarDecl, RET], &vec![Ok(()), Ok(())]);
    assert_eq!(r, (None, Err(SemanticError::UnexpectedReturn)));
    let r = func_def(None, "f".to_string(), vec![Ok(Base::Bool)], None, &[FuncStmtKind::Return { has_value: false }], &vec![Ok(())]);
    assert_eq!(r, (None, Err(SemanticError::UnexpectedReturn)));
    let r = func_def::<Base>(None, "f".to_string(), vec![], None, &[FuncStmtKind::Revert], &vec![Ok(())]);
    assert_eq!(r.1, Ok(()));
}

#[test]
fn func_def_reports_first_type_error() {
    let r = func_def(
        None,
        "f".to_string(),
        vec![Ok(Base::Bool), Err(SemanticError::TypeError), Err(SemanticError::MissingReturn)],
        Some(Err(SemanticError::UnexpectedReturn)),
        &[],
        &vec![],
    );
    assert_eq!(r, (None, Err(SemanticError::TypeError)));
    let r = func_def(None, "f".to_string(), vec![Ok(Base::Bool)], Some(Err(SemanticError::TypeError)), &[], &vec![]);
    assert_eq!(r, (None, Err(SemanticError::TypeError)));
}

#[test]
fn func_def_arg_binds_by_kind() {
    type Ty = FixedSize<Base, (Base, u32)>;
    let r: Result<(ParamVar, Ty), SemanticError> = func_def_arg("x".to_string(), Ok(FixedSize::Base(Base::U256)));
    assert_eq!(
        r,
        Ok((ParamVar { name: "x".to_string(), binding: ParamBinding::Base }, FixedSize::Base(Base::U256)))
    );
    let r: Result<(ParamVar, Ty), SemanticError> = func_def_arg("xs".to_string(), Ok(FixedSize::Array((Base::Bool, 4))));
    assert_eq!(
        r,
        Ok((ParamVar { name: "xs".to_string(), binding: ParamBinding::Array }, FixedSize::Array((Base::Bool, 4))))
    );
    let r: Result<(ParamVar, Ty), SemanticError> = func_def_arg("y".to_string(), Err(SemanticError::TypeError));
    assert_eq!(r, Err(SemanticError::TypeError));
}

#[test]
fn emit_records_event_and_checks_arguments() {
    let args = vec![Ok(true), Ok(true)];
    assert_eq!(emit(Ok("Transfer".to_string()), true, &args), (Some("Transfer".to_string()), Ok(())));
    assert_eq!(emit(Ok("Nope".to_string()), false, &args), (None, Ok(())));
    let args = vec![Ok(true), Err(SemanticError::MissingReturn), Ok(false)];
    assert_eq!(emit(Ok("Transfer".to_string()), true, &args), (Some("Transfer".to_string()), Err(SemanticError::MissingReturn)));
    assert_eq!(emit(Err(SemanticError::UnexpectedReturn), true, &args), (None, Err(SemanticError::UnexpectedReturn)));
    assert_eq!(emit(Ok("E".to_string()), true, &vec![]), (Some("E".to_string()), Ok(())));
}

#[test]
fn emit_reports_mistyped_argument() {
    let args = vec![Ok(true), Ok(false), Err(SemanticError::MissingReturn)];
    assert_eq!(emit(Ok("Transfer".to_string()), true, &args), (Some("Transfer".to_string()), Err(SemanticError::TypeError)));
}

#[test]
fn call_arg_checks_analysis_and_type() {
    assert_eq!(call_arg(&Ok(true)), Ok(()));
    assert_eq!(call_arg(&Ok(false)), Err(SemanticError::TypeError));
    assert_eq!(call_arg(&Err(SemanticError::MissingReturn)), Err(SemanticError::MissingReturn));
}

#[test]
fn simple_func_def() {
    // def foo(x: u256) -> u256: return x + x
    let r = func_def_checked(
        None,
        "foo".to_string(),
        vec![Ok(Base::U256)],
        Some(Ok(Base::U256)),
        vec![StmtAnalysis::Return { value: Ok(true) }],
    );
    assert_eq!(r, (Some(foo_def()), vec![], Ok(())));
}

#[test]
fn func_def_checked_reports_mistyped_event_argument() {
    let stmts = vec![
        StmtAnalysis::VarDecl { outcome: Ok(()) },
        StmtAnalysis::Emit { event_name: Ok("Paid".to_string()), names_event: true, args: vec![Ok(true), Ok(false)] },
        StmtAnalysis::Emit { event_name: Ok("Later".to_string()), names_event: true, args: vec![] },
        StmtAnalysis::Revert,
    ];
    let r = func_def_checked(Some(FuncQual::Pub), "pay".to_string(), vec![Ok(Base::Bool)], None, stmts);
    assert_eq!(
        r,
        (
            Some(FunctionDef { name: "pay".to_string(), is_public: true, param_types: vec![Base::Bool], return_type: None }),
            vec!["Paid".to_string()],
            Err(SemanticError::TypeError)
        )
    );
}

#[test]
fn func_def_checked_records_events_and_checks_returns() {
    let stmts = vec![
        StmtAnalysis::Emit { event_name: Ok("A".to_string()), names_event: true, args: vec![Ok(true)] },
        StmtAnalysis::Emit { event_name: Ok("x".to_string()), names_event: false, args: vec![] },
        StmtAnalysis::Emit { event_name: Ok("B".to_string()), names_event: true, args: vec![] },
        StmtAnalysis::Return { value: Ok(true) },
    ];
    let r = func_def_checked(None, "f".to_string(), vec![], Some(Ok(Base::U256)), stmts);
    assert_eq!(r.1, vec!["A".to_string(), "B".to_string()]);
    assert_eq!(r.2, Ok(()));

    let stmts = vec![StmtAnalysis::Assign { outcome: Ok(()) }, StmtAnalysis::Return { value: Ok(false) }];
    let r = func_def_checked(None, "f".to_string(), vec![], Some(Ok(Base::U256)), stmts);
    assert!(r.0.is_some());
    assert_eq!(r.2, Err(SemanticError::TypeError));

    // Without a return type, a `return` is refused before any statement is checked.
    let stmts = vec![
        StmtAnalysis::Emit { event_name: Ok("A".to_string()), names_event: true, args: vec![] },
        StmtAnalysis::Return { value: Ok(true) },
    ];
    let r = func_def_checked::<Base>(None, "f".to_string(), vec![], None, stmts);
    assert_eq!(r, (None, vec![], Err(SemanticError::UnexpectedReturn)));
}

#[test]
fn check_stmt_dispatches() {
    assert_eq!(check_stmt(StmtAnalysis::Return { value: Ok(true) }, true), (None, Ok(())));
    assert_eq!(check_stmt(StmtAnalysis::Return { value: Ok(true) }, false), (None, Err(SemanticError::UnexpectedReturn)));
    assert_eq!(check_stmt(StmtAnalysis::Return { value: Err(SemanticError::MissingReturn) }, true), (None, Err(SemanticError::MissingReturn)));
    assert_eq!(check_stmt(StmtAnalysis::VarDecl { outcome: Err(SemanticError::TypeError) }, true), (None, Err(SemanticError::TypeError)));
    assert_eq!(check_stmt(StmtAnalysis::Assign { outcome: Ok(()) }, false), (None, Ok(())));
    assert_eq!(check_stmt(StmtAnalysis::Revert, false), (None, Ok(())));
    assert_eq!(
        check_stmt(StmtAnalysis::Emit { event_name: Ok("E".to_string()), names_event: true, args: vec![Ok(false)] }, false),
        (Some("E".to_string()), Err(SemanticError::TypeError))
    );
}

#[test]
fn all_paths_return_or_revert() {
    assert_eq!(validate_all_paths_return_or_revert(&[]), Err(SemanticError::MissingReturn));
    assert_eq!(validate_all_paths_return_or_revert(&[FuncStmtKind::Pass, RET]), Ok(()));
    assert_eq!(validate_all_paths_return_or_revert(&[FuncStmtKind::Revert]), Ok(()));
    assert_eq!(
        validate_all_paths_return_or_revert(&[FuncStmtKind::Return { has_value: false }]),
        Ok(())
    );
    assert_eq!(
        validate_all_paths_return_or_revert(&[FuncStmtKind::Emit, FuncStmtKind::Assign]),
        Err(SemanticError::MissingReturn)
    );
}

#[test]
fn no_path_returns() {
    assert_eq!(validate_no_path_returns(&[]), Ok(()));
    assert_eq!(validate_no_path_returns(&[FuncStmtKind::Revert, FuncStmtKind::Emit]), Ok(()));
    assert_eq!(validate_no_path_returns(&[FuncStmtKind::Pass, RET]), Err(SemanticError::UnexpectedReturn));
    assert_eq!(
        validate_no_path_returns(&[FuncStmtKind::Return { has_value: false }]),
        Err(SemanticError::UnexpectedReturn)
    );
}

#[test]
fn statement_actions() {
    assert_eq!(func_stmt(RET), StmtAction::CheckReturn);
    assert_eq!(func_stmt(FuncStmtKind::VarDecl), StmtAction::DeclareVar);
    assert_eq!(func_stmt(FuncStmtKind::Assign), StmtAction::Assign);
    assert_eq!(func_stmt(FuncStmtKind::Emit), StmtAction::Emit);
    assert_eq!(func_stmt(FuncStmtKind::Revert), StmtAction::Accept);
}

#[test]
fn return_checks() {
    assert_eq!(func_return(Err(SemanticError::MissingReturn), false), Err(SemanticError::MissingReturn));
    assert_eq!(func_return(Err(SemanticError::MissingReturn), true), Err(SemanticError::MissingReturn));
    assert_eq!(func_return(Ok(true), false), Err(SemanticError::UnexpectedReturn));
    assert_eq!(func_return(Ok(false), false), Err(SemanticError::UnexpectedReturn));
    assert_eq!(func_return(Ok(false), true), Err(SemanticError::TypeError));
    assert_eq!(func_return(Ok(true), true), Ok(()));
}
