//! The checks that the semantic pass makes on a function definition: which
//! error it reports, what it registers for the function, and how it handles
//! each statement of the body.
//!
//! Resolving type descriptions and analysing expressions happen elsewhere;
//! their outcomes come in here as values.

use vstd::prelude::*;

verus! {

/// Errors that the checks of a function definition report.
#[derive(Debug, Clone, Copy, PartialEq, Eq, Structural)]
pub enum SemanticError {
    /// A function with a return type has no statement that returns or reverts.
    MissingReturn,
    /// A function without a return type returns a value.
    UnexpectedReturn,
    /// A returned value does not have the declared return type.
    TypeError,
}

/// The qualifier in front of `def`.
#[derive(Debug, Clone, Copy, PartialEq, Eq, Structural)]
pub enum FuncQual {
    Pub,
}

/// The kinds of statement that a function body is made of.
#[derive(Debug, Clone, Copy, PartialEq, Eq, Structural)]
pub enum FuncStmtKind {
    /// `return`, with or without a value.
    Return { has_value: bool },
    VarDecl,
    Assign,
    Emit,
    AugAssign,
    For,
    While,
    If,
    Assert,
    Expr,
    Pass,
    Break,
    Continue,
    Revert,
}

/// What the pass does with a statement of the body.
#[derive(Debug, Clone, Copy, PartialEq, Eq, Structural)]
pub enum StmtAction {
    /// Analyse the returned value and hold its type against the declared one.
    CheckReturn,
    /// Declare a variable.
    DeclareVar,
    /// Check an assignment.
    Assign,
    /// Check an event emission and its arguments.
    Emit,
    /// Nothing to check.
    Accept,
}

/// A resolved type of fixed size: a base type or an array.
#[derive(Debug, Clone, PartialEq, Eq)]
pub enum FixedSize<B, A> {
    Base(B),
    Array(A),
}

/// How a parameter is bound in the function's scope.
#[derive(Debug, Clone, Copy, PartialEq, Eq, Structural)]
pub enum ParamBinding {
    /// Bound as a variable of a base type.
    Base,
    /// Bound as an array variable.
    Array,
}

/// A parameter as the function's scope holds it: its name, bound as a
/// variable of a base type or as an array variable.
#[derive(Debug, Clone, PartialEq, Eq)]
pub struct ParamVar {
    pub name: String,
    pub binding: ParamBinding,
}

/// What the pass registers for a function: its name, whether it is public,
/// the types of its parameters and its return type.
#[derive(Debug, Clone, PartialEq, Eq)]
pub struct FunctionDef<T> {
    pub name: String,
    pub is_public: bool,
    pub param_types: Vec<T>,
    pub return_type: Option<T>,
}

/// The body holds a statement that returns or reverts.
pub open spec fn returns_or_reverts(body: Seq<FuncStmtKind>) -> bool {
    exists|i: int| 0 <= i < body.len() && (#[trigger] body[i] is Return || body[i] is Revert)
}

/// The body holds a `return` statement.
pub open spec fn has_return(body: Seq<FuncStmtKind>) -> bool {
    exists|i: int| 0 <= i < body.len() && #[trigger] body[i] is Return
}

/// Every path of a function with a return type must return or revert. There is
/// no branching yet, so one such statement anywhere in the body suffices.
pub fn validate_all_paths_return_or_revert(body: &[FuncStmtKind]) -> (r: Result<(), SemanticError>)
    ensures
        r == (if returns_or_reverts(body@) {
            Ok(())
        } else {
            Err(SemanticError::MissingReturn)
        }),
{
    let mut i: usize = 0;
    while i < body.len()
        invariant
            i <= body@.len(),
            forall|j: int| 0 <= j < i ==> !(#[trigger] body@[j] is Return || body@[j] is Revert),
        decreases body@.len() - i,
    {
        match body[i] {
            FuncStmtKind::Return { .. } => {
                return Ok(());
            },
            FuncStmtKind::Revert => {
                return Ok(());
            },
            _ => {},
        }
        i = i + 1;
    }
    Err(SemanticError::MissingReturn)
}

/// No path of a function without a return type may return.
pub fn validate_no_path_returns(body: &[FuncStmtKind]) -> (r: Result<(), SemanticError>)
    ensures
        r == (if has_return(body@) {
            Err(SemanticError::UnexpectedReturn)
        } else {
            Ok(())
        }),
{
    let mut i: usize = 0;
    while i < body.len()
        invariant
            i <= body@.len(),
            forall|j: int| 0 <= j < i ==> !(#[trigger] body@[j] is Return),
        decreases body@.len() - i,
    {
        if let FuncStmtKind::Return { .. } = body[i] {
            return Err(SemanticError::UnexpectedReturn);
        }
        i = i + 1;
    }
    Ok(())
}

/// The first error among the results, read from the front.
pub open spec fn first_error<T>(results: Seq<Result<T, SemanticError>>) -> Option<SemanticError>
    decreases results.len(),
{
    if results.len() == 0 {
        None
    } else {
        match results[0] {
            Err(e) => Some(e),
            Ok(_) => first_error(results.drop_first()),
        }
    }
}

/// The values of the results, in order (meaningful where none is an error).
pub open spec fn ok_values<T>(results: Seq<Result<T, SemanticError>>) -> Seq<T> {
    results.map_values(|x: Result<T, SemanticError>| x->Ok_0)
}

/// Where no result is an error, every result holds a value.
pub proof fn lemma_no_first_error_all_ok<T>(results: Seq<Result<T, SemanticError>>)
    ensures
        first_error(results) is None ==> forall|i: int|
            0 <= i < results.len() ==> #[trigger] results[i] is Ok,
    decreases results.len(),
{
    if results.len() > 0 {
        lemma_no_first_error_all_ok(results.drop_first());
        if first_error(results) is None {
            assert forall|i: int| 0 <= i < results.len() implies #[trigger] results[i] is Ok by {
                if i > 0 {
                    assert(results[i] == results.drop_first()[i - 1]);
                }
            }
        }
    }
}

/// Gathers the resolved types, stopping at the first that failed.
fn collect_types<T>(results: Vec<Result<T, SemanticError>>) -> (r: Result<Vec<T>, SemanticError>)
    ensures
        match first_error(results@) {
            Some(e) => r == Err::<Vec<T>, SemanticError>(e),
            None => r is Ok && r->Ok_0@ == ok_values(results@),
        },
{
    let ghost all = results@;
    let mut rest = results;
    let mut out: Vec<T> = Vec::new();
    while rest.len() > 0
        invariant
            all == results@,
            first_error(all) == first_error(rest@),
            out@ + ok_values(rest@) == ok_values(all),
        decreases rest@.len(),
    {
        let ghost before = rest@;
        let x = rest.remove(0);
        assert(rest@ == before.drop_first());
        match x {
            Ok(t) => {
                assert(ok_values(before) == seq![t] + ok_values(rest@));
                out.push(t);
            },
            Err(e) => {
                assert(first_error(before) == Some(e));
                return Err(e);
            },
        }
    }
    Ok(out)
}

/// The pass cannot handle the statement yet and stops: a `return` without a
/// value, and the kinds that have no checks yet.
pub open spec fn stmt_unhandled(stmt: FuncStmtKind) -> bool {
    ||| stmt == (FuncStmtKind::Return { has_value: false })
    ||| stmt is AugAssign
    ||| stmt is For
    ||| stmt is While
    ||| stmt is If
    ||| stmt is Assert
    ||| stmt is Expr
    ||| stmt is Pass
    ||| stmt is Break
    ||| stmt is Continue
}

/// The error that checking a definition reports before its body's statements
/// are analysed, if any: first a parameter type that failed to resolve, then a
/// return type that failed to resolve, then a body that does not fit the
/// return type.
pub open spec fn func_def_error<T>(
    param_types: Seq<Result<T, SemanticError>>,
    return_type: Option<Result<T, SemanticError>>,
    body: Seq<FuncStmtKind>,
) -> Option<SemanticError> {
    if first_error(param_types) is Some {
        first_error(param_types)
    } else {
        match return_type {
            Some(Err(e)) => Some(e),
            Some(Ok(_)) => if returns_or_reverts(body) {
                None
            } else {
                Some(SemanticError::MissingReturn)
            },
            None => if has_return(body) {
                Some(SemanticError::UnexpectedReturn)
            } else {
                None
            },
        }
    }
}

/// The outcome of a run of checks that stops at the first error.
pub open spec fn outcome<T>(results: Seq<Result<T, SemanticError>>) -> Result<(), SemanticError> {
    match first_error(results) {
        Some(e) => Err(e),
        None => Ok(()),
    }
}

/// Extending a run without errors by one result: the run's first error is
/// that result's error, if it has one.
pub proof fn lemma_first_error_extend<T>(results: Seq<Result<T, SemanticError>>, i: int)
    requires
        0 <= i < results.len(),
        first_error(results.take(i)) is None,
    ensures
        first_error(results.take(i + 1)) == match results[i] {
            Err(e) => Some(e),
            Ok(_) => None::<SemanticError>,
        },
    decreases i,
{
    if i == 0 {
        assert(results.take(1)[0] == results[0]);
        assert(results.take(1).drop_first() =~= Seq::<Result<T, SemanticError>>::empty());
        assert(first_error(Seq::<Result<T, SemanticError>>::empty()) is None);
    } else {
        let rest = results.drop_first();
        assert(results.take(i)[0] == results[0]);
        assert(results.take(i + 1)[0] == results[0]);
        assert(results.take(i).drop_first() =~= rest.take(i - 1));
        assert(results.take(i + 1).drop_first() =~= rest.take(i));
        assert(rest[i - 1] == results[i]);
        assert(results[0] is Ok);
        lemma_first_error_extend(rest, i - 1);
    }
}

/// Checks a function definition.
///
/// `param_types` holds the outcome of resolving each parameter's type, in
/// order, and `return_type` that of resolving the declared return type, if
/// there is one. The function is public when it has a qualifier.
/// `stmt_results` holds the outcome of analysing each statement of the body,
/// in order; the analysis stops at the first that fails.
///
/// The first part of the result is what gets registered for the function:
/// once the parameter types, the return type and the shape of the body pass,
/// the function is registered, and it stays registered when a statement of its
/// body then fails. The second part is the outcome of the whole check.
#[verifier::loop_isolation(false)]
pub fn func_def<T>(
    qual: Option<FuncQual>,
    name: String,
    param_types: Vec<Result<T, SemanticError>>,
    return_type: Option<Result<T, SemanticError>>,
    body: &[FuncStmtKind],
    stmt_results: &Vec<Result<(), SemanticError>>,
) -> (r: (Option<FunctionDef<T>>, Result<(), SemanticError>))
    requires
        stmt_results@.len() == body@.len(),
        func_def_error(param_types@, return_type, body@) is None ==> forall|i: int|
            0 <= i < body@.len() && #[trigger] stmt_unhandled(body@[i]) ==> first_error(
                stmt_results@.take(i),
            ) is Some,
    ensures
        match func_def_error(param_types@, return_type, body@) {
            Some(e) => r.0 is None && r.1 == Err::<(), SemanticError>(e),
            None => r.0 is Some && r.1 == outcome(stmt_results@),
        },
        r.0 matches Some(d) ==> {
            &&& forall|i: int| 0 <= i < param_types@.len() ==> #[trigger] param_types@[i] is Ok
            &&& d.name@ == name@
            &&& d.is_public == qual is Some
            &&& d.param_types@ == ok_values(param_types@)
            &&& d.return_type == match return_type {
                Some(t) => Some(t->Ok_0),
                None => None::<T>,
            }
        },
{
    proof {
        lemma_no_first_error_all_ok(param_types@);
    }
    let params = match collect_types(param_types) {
        Ok(p) => p,
        Err(e) => {
            return (None, Err(e));
        },
    };
    let return_type = match return_type {
        Some(Ok(t)) => Some(t),
        Some(Err(e)) => {
            return (None, Err(e));
        },
        None => None,
    };
    let checked = match return_type {
        Some(_) => validate_all_paths_return_or_revert(body),
        None => validate_no_path_returns(body),
    };
    if let Err(e) = checked {
        return (None, Err(e));
    }
    let is_public = qual.is_some();
    let def = FunctionDef { name, is_public, param_types: params, return_type };
    let mut i: usize = 0;
    while i < stmt_results.len()
        invariant
            i <= stmt_results@.len(),
            first_error(stmt_results@.take(i as int)) is None,
        decreases stmt_results@.len() - i,
    {
        proof {
            lemma_first_error_extend(stmt_results@, i as int);
        }
        if let Err(e) = &stmt_results[i] {
            proof {
                lemma_prefix_error(stmt_results@, i as int + 1);
            }
            return (Some(def), Err(*e));
        }
        i = i + 1;
    }
    assert(stmt_results@.take(i as int) =~= stmt_results@);
    (Some(def), Ok(()))
}

/// A first error found in a prefix is the first error of the whole run.
pub proof fn lemma_prefix_error<T>(results: Seq<Result<T, SemanticError>>, n: int)
    requires
        0 <= n <= results.len(),
        first_error(results.take(n)) is Some,
    ensures
        first_error(results) == first_error(results.take(n)),
    decreases n,
{
    if n > 0 && results[0] is Ok {
        let rest = results.drop_first();
        assert(results.take(n).drop_first() =~= rest.take(n - 1));
        lemma_prefix_error(rest, n - 1);
    } else if n > 0 {
        assert(results.take(n)[0] == results[0]);
    }
}

/// How a parameter of the type is bound.
pub open spec fn binding_of<B, A>(t: FixedSize<B, A>) -> ParamBinding {
    match t {
        FixedSize::Base(_) => ParamBinding::Base,
        FixedSize::Array(_) => ParamBinding::Array,
    }
}

/// Binds a parameter in the function's scope: `name` is the parameter's name
/// and `typ` the outcome of resolving its type. Gives the variable to add to
/// the scope, which binds the name as a base or an array variable as the type
/// is, together with the type; or the resolution error, binding nothing.
pub fn func_def_arg<B, A>(name: String, typ: Result<FixedSize<B, A>, SemanticError>) -> (r: Result<
    (ParamVar, FixedSize<B, A>),
    SemanticError,
>)
    ensures
        match typ {
            Err(e) => r == Err::<(ParamVar, FixedSize<B, A>), SemanticError>(e),
            Ok(t) => r matches Ok((var, ty)) && {
                &&& var.name@ == name@
                &&& var.binding == binding_of(t)
                &&& ty == t
            },
        },
{
    match typ {
        Err(e) => Err(e),
        Ok(t) => {
            let binding = match &t {
                FixedSize::Base(_) => ParamBinding::Base,
                FixedSize::Array(_) => ParamBinding::Array,
            };
            Ok((ParamVar { name, binding }, t))
        },
    }
}

/// What the pass does with a statement of the kind.
pub open spec fn stmt_action(stmt: FuncStmtKind) -> StmtAction {
    match stmt {
        FuncStmtKind::Return { .. } => StmtAction::CheckReturn,
        FuncStmtKind::VarDecl => StmtAction::DeclareVar,
        FuncStmtKind::Assign => StmtAction::Assign,
        FuncStmtKind::Emit => StmtAction::Emit,
        _ => StmtAction::Accept,
    }
}

/// What the pass does with a statement of the body. The statements that the
/// pass cannot handle yet make it stop, so they are left out.
pub fn func_stmt(stmt: FuncStmtKind) -> (r: StmtAction)
    requires
        !stmt_unhandled(stmt),
    ensures
        r == stmt_action(stmt),
{
    match stmt {
        FuncStmtKind::Return { .. } => StmtAction::CheckReturn,
        FuncStmtKind::VarDecl => StmtAction::DeclareVar,
        FuncStmtKind::Assign => StmtAction::Assign,
        FuncStmtKind::Emit => StmtAction::Emit,
        _ => StmtAction::Accept,
    }
}

/// How checking a `return` with a value ends: `value` is the outcome of
/// analysing the value, `return_type_declared` whether the function declares
/// a return type.
pub open spec fn return_check(value: Result<bool, SemanticError>, return_type_declared: bool) -> Result<
    (),
    SemanticError,
> {
    match value {
        Err(e) => Err(e),
        Ok(types_match) => if !return_type_declared {
            Err(SemanticError::UnexpectedReturn)
        } else if !types_match {
            Err(SemanticError::TypeError)
        } else {
            Ok(())
        },
    }
}

/// Checks a `return` with a value against the enclosing function.
///
/// `value` is the outcome of analysing the returned value: an error, or
/// whether the value's type is the declared return type (when there is one).
/// `return_type_declared` says whether the function declares a return type.
/// An error from the analysis comes first.
pub fn func_return(value: Result<bool, SemanticError>, return_type_declared: bool) -> (r: Result<
    (),
    SemanticError,
>)
    ensures
        r == return_check(value, return_type_declared),
{
    let types_match = match value {
        Err(e) => {
            return Err(e);
        },
        Ok(m) => m,
    };
    if !return_type_declared {
        Err(SemanticError::UnexpectedReturn)
    } else if !types_match {
        Err(SemanticError::TypeError)
    } else {
        Ok(())
    }
}

/// How an argument check ends: `value` is the outcome of analysing the
/// argument, an error or whether its type is the type of the field it fills.
pub open spec fn arg_check(value: Result<bool, SemanticError>) -> Result<(), SemanticError> {
    match value {
        Err(e) => Err(e),
        Ok(true) => Ok(()),
        Ok(false) => Err(SemanticError::TypeError),
    }
}

/// The checks of the arguments, in order.
pub open spec fn arg_checks(args: Seq<Result<bool, SemanticError>>) -> Seq<Result<(), SemanticError>> {
    args.map_values(|a: Result<bool, SemanticError>| arg_check(a))
}

/// Checks an argument of a call: `value` is the outcome of analysing it, an
/// error or whether its type is the type of the field it fills. An analysis
/// error comes out as it is; a mismatched type is a type error.
pub fn call_arg(value: &Result<bool, SemanticError>) -> (r: Result<(), SemanticError>)
    ensures
        r == arg_check(*value),
{
    match value {
        Err(e) => Err(*e),
        Ok(true) => Ok(()),
        Ok(false) => Err(SemanticError::TypeError),
    }
}

/// Checks an `emit` statement.
///
/// `event_name` is the outcome of reading the emitted event's name;
/// `names_event` says whether that name is an event of the contract;
/// `args` holds the outcome of analysing each argument, in order: an error,
/// or whether the argument's type is that of the event's matching field.
///
/// The first part of the result is the event to record for the statement, if
/// any: it is recorded when its name is an event, before the arguments are
/// checked. The second part is the outcome: the error in reading the name, or
/// else the first argument that fails its check (`call_arg`).
#[verifier::loop_isolation(false)]
pub fn emit(
    event_name: Result<String, SemanticError>,
    names_event: bool,
    args: &Vec<Result<bool, SemanticError>>,
) -> (r: (Option<String>, Result<(), SemanticError>))
    ensures
        match event_name {
            Err(e) => r.0 is None && r.1 == Err::<(), SemanticError>(e),
            Ok(n) => {
                &&& r.0 is Some == names_event
                &&& r.0 matches Some(recorded) ==> recorded@ == n@
                &&& r.1 == outcome(arg_checks(args@))
            },
        },
{
    let name = match event_name {
        Err(e) => {
            return (None, Err(e));
        },
        Ok(n) => n,
    };
    let recorded = if names_event {
        Some(name)
    } else {
        None
    };
    let mut i: usize = 0;
    while i < args.len()
        invariant
            i <= args@.len(),
            first_error(arg_checks(args@).take(i as int)) is None,
        decreases args@.len() - i,
    {
        proof {
            lemma_first_error_extend(arg_checks(args@), i as int);
        }
        if let Err(e) = call_arg(&args[i]) {
            proof {
                lemma_prefix_error(arg_checks(args@), i as int + 1);
            }
            return (recorded, Err(e));
        }
        i = i + 1;
    }
    assert(arg_checks(args@).take(i as int) =~= arg_checks(args@));
    (recorded, Ok(()))
}

/// A definition that passes the checks fits its return type: with one, its
/// body returns or reverts somewhere; without one, its body never returns.
pub proof fn lemma_accepted_body_fits_return_type<T>(
    param_types: Seq<Result<T, SemanticError>>,
    return_type: Option<Result<T, SemanticError>>,
    body: Seq<FuncStmtKind>,
)
    ensures
        func_def_error(param_types, return_type, body) is None ==> match return_type {
            Some(_) => returns_or_reverts(body),
            None => !has_return(body),
        },
{
}

/// What the analysis of one statement of the body produced, for the
/// statements that the pass handles.
#[derive(Debug, PartialEq, Eq)]
pub enum StmtAnalysis {
    /// `return` with a value: the outcome of analysing the value, an error or
    /// whether its type is the function's declared return type.
    Return { value: Result<bool, SemanticError> },
    /// A variable declaration and the outcome of checking it.
    VarDecl { outcome: Result<(), SemanticError> },
    /// An assignment and the outcome of checking it.
    Assign { outcome: Result<(), SemanticError> },
    /// An `emit`: as `emit` takes it.
    Emit {
        event_name: Result<String, SemanticError>,
        names_event: bool,
        args: Vec<Result<bool, SemanticError>>,
    },
    Revert,
}

impl StmtAnalysis {
    /// The kind of the statement.
    pub open spec fn kind(self) -> FuncStmtKind {
        match self {
            StmtAnalysis::Return { .. } => FuncStmtKind::Return { has_value: true },
            StmtAnalysis::VarDecl { .. } => FuncStmtKind::VarDecl,
            StmtAnalysis::Assign { .. } => FuncStmtKind::Assign,
            StmtAnalysis::Emit { .. } => FuncStmtKind::Emit,
            StmtAnalysis::Revert => FuncStmtKind::Revert,
        }
    }

    /// The kind of the statement.
    pub fn stmt_kind(&self) -> (k: FuncStmtKind)
        ensures
            k == self.kind(),
    {
        match self {
            StmtAnalysis::Return { .. } => FuncStmtKind::Return { has_value: true },
            StmtAnalysis::VarDecl { .. } => FuncStmtKind::VarDecl,
            StmtAnalysis::Assign { .. } => FuncStmtKind::Assign,
            StmtAnalysis::Emit { .. } => FuncStmtKind::Emit,
            StmtAnalysis::Revert => FuncStmtKind::Revert,
        }
    }

    /// How checking the statement ends, in a function that declares a return
    /// type or not.
    pub open spec fn check(self, return_type_declared: bool) -> Result<(), SemanticError> {
        match self {
            StmtAnalysis::Return { value } => return_check(value, return_type_declared),
            StmtAnalysis::VarDecl { outcome } => outcome,
            StmtAnalysis::Assign { outcome } => outcome,
            StmtAnalysis::Emit { event_name, names_event, args } => match event_name {
                Err(e) => Err(e),
                Ok(_) => outcome(arg_checks(args@)),
            },
            StmtAnalysis::Revert => Ok(()),
        }
    }

    /// The name of the event that checking the statement records, if any.
    pub open spec fn recorded_event(self) -> Option<Seq<char>> {
        match self {
            StmtAnalysis::Emit { event_name: Ok(n), names_event: true, .. } => Some(n@),
            _ => None,
        }
    }
}

/// The kinds of the statements, in order.
pub open spec fn stmt_kinds(stmts: Seq<StmtAnalysis>) -> Seq<FuncStmtKind> {
    stmts.map_values(|a: StmtAnalysis| a.kind())
}

/// The checks of the statements, in order.
pub open spec fn stmt_checks(stmts: Seq<StmtAnalysis>, return_type_declared: bool) -> Seq<
    Result<(), SemanticError>,
> {
    stmts.map_values(|a: StmtAnalysis| a.check(return_type_declared))
}

/// Checks one statement of the body: dispatches on its kind (`func_stmt`), and
/// checks a `return` against whether the function declares a return type
/// (`func_return`) and an `emit` by its event and arguments (`emit`). Gives
/// the event that gets recorded, if any, and the outcome.
pub fn check_stmt(stmt: StmtAnalysis, return_type_declared: bool) -> (r: (
    Option<String>,
    Result<(), SemanticError>,
))
    ensures
        r.1 == stmt.check(return_type_declared),
        r.0 is Some == stmt.recorded_event() is Some,
        r.0 matches Some(n) ==> n@ == stmt.recorded_event()->Some_0,
{
    let action = func_stmt(stmt.stmt_kind());
    match (action, stmt) {
        (StmtAction::CheckReturn, StmtAnalysis::Return { value }) => (
            None,
            func_return(value, return_type_declared),
        ),
        (StmtAction::DeclareVar, StmtAnalysis::VarDecl { outcome }) => (None, outcome),
        (StmtAction::Assign, StmtAnalysis::Assign { outcome }) => (None, outcome),
        (StmtAction::Emit, StmtAnalysis::Emit { event_name, names_event, args }) => emit(
            event_name,
            names_event,
            &args,
        ),
        (_, _) => (None, Ok(())),
    }
}

/// The names of the events that the statements record, in order.
pub open spec fn recorded_events(stmts: Seq<StmtAnalysis>) -> Seq<Seq<char>>
    decreases stmts.len(),
{
    if stmts.len() == 0 {
        Seq::empty()
    } else {
        let before = recorded_events(stmts.drop_last());
        match stmts.last().recorded_event() {
            Some(n) => before.push(n),
            None => before,
        }
    }
}

/// Checking statements in order stops after the first `k`: either all of them
/// pass and `k` is their number, or the `k`-th is the first that fails.
pub open spec fn stops_after(checks: Seq<Result<(), SemanticError>>, k: int) -> bool {
    ||| k == checks.len() && first_error(checks) is None
    ||| 0 < k <= checks.len() && first_error(checks.take(k - 1)) is None && checks[k - 1] is Err
}

/// The names held by strings, in order.
pub open spec fn names(v: Seq<String>) -> Seq<Seq<char>> {
    v.map_values(|s: String| s@)
}

/// Checks a function definition together with its body's statements.
///
/// As `func_def`, with each statement's outcome worked out by `check_stmt`
/// from what its analysis produced, against whether the function declares a
/// return type. Also gives the events that the statements record: none unless
/// the function is registered, and otherwise those of the statements up to and
/// including the first that fails.
#[verifier::loop_isolation(false)]
pub fn func_def_checked<T>(
    qual: Option<FuncQual>,
    name: String,
    param_types: Vec<Result<T, SemanticError>>,
    return_type: Option<Result<T, SemanticError>>,
    stmts: Vec<StmtAnalysis>,
) -> (r: (Option<FunctionDef<T>>, Vec<String>, Result<(), SemanticError>))
    ensures
        match func_def_error(param_types@, return_type, stmt_kinds(stmts@)) {
            Some(e) => r.0 is None && r.1@.len() == 0 && r.2 == Err::<(), SemanticError>(e),
            None => {
                &&& r.0 is Some
                &&& r.2 == outcome(stmt_checks(stmts@, return_type is Some))
                &&& exists|k: int|
                    stops_after(stmt_checks(stmts@, return_type is Some), k) && names(r.1@)
                        == recorded_events(#[trigger] stmts@.take(k))
            },
        },
        r.0 matches Some(d) ==> {
            &&& forall|i: int| 0 <= i < param_types@.len() ==> #[trigger] param_types@[i] is Ok
            &&& d.name@ == name@
            &&& d.is_public == qual is Some
            &&& d.param_types@ == ok_values(param_types@)
            &&& d.return_type == match return_type {
                Some(t) => Some(t->Ok_0),
                None => None::<T>,
            }
        },
{
    let declared = return_type.is_some();
    let ghost all = stmts@;
    let ghost checks = stmt_checks(all, declared);
    let ghost mut k: int = 0;
    let mut rest = stmts;
    let mut kinds: Vec<FuncStmtKind> = Vec::new();
    let mut results: Vec<Result<(), SemanticError>> = Vec::new();
    let mut events: Vec<String> = Vec::new();
    let mut stopped = false;
    while rest.len() > 0
        invariant
            all == stmts@,
            checks == stmt_checks(all, declared),
            declared == return_type is Some,
            kinds@.len() == results@.len(),
            kinds@.len() + rest@.len() == all.len(),
            rest@ == all.skip(kinds@.len() as int),
            kinds@ == stmt_kinds(all.take(kinds@.len() as int)),
            results@ == stmt_checks(all.take(kinds@.len() as int), declared),
            !stopped ==> first_error(results@) is None && names(events@) == recorded_events(
                all.take(kinds@.len() as int),
            ),
            stopped ==> 0 < k <= kinds@.len() && first_error(checks.take(k - 1)) is None
                && checks[k - 1] is Err && names(events@) == recorded_events(all.take(k)),
        decreases rest@.len(),
    {
        let ghost n = kinds@.len() as int;
        let stmt = rest.remove(0);
        assert(stmt == all[n]);
        kinds.push(stmt.stmt_kind());
        let (recorded, out) = check_stmt(stmt, declared);
        let ghost prev = results@;
        results.push(out);
        assert(all.take(n + 1) =~= all.take(n).push(all[n]));
        assert(all.take(n + 1).drop_last() =~= all.take(n));
        assert(kinds@ =~= stmt_kinds(all.take(n + 1)));
        assert(results@ =~= stmt_checks(all.take(n + 1), declared));
        assert(rest@ =~= all.skip(n + 1));
        if !stopped {
            assert(checks[n] == results@[n]);
            if let Some(event) = recorded {
                events.push(event);
                assert(names(events@) =~= recorded_events(all.take(n + 1)));
            } else {
                assert(names(events@) =~= recorded_events(all.take(n + 1)));
            }
            proof {
                assert(results@.take(n) =~= prev);
                lemma_first_error_extend(results@, n);
                assert(results@.take(n + 1) =~= results@);
                assert(checks.take(n) =~= prev);
            }
            if out.is_err() {
                stopped = true;
                proof {
                    k = n + 1;
                }
            }
        }
    }
    assert(all.take(all.len() as int) =~= all);
    assert(checks.take(all.len() as int) =~= checks);
    assert forall|i: int| 0 <= i < kinds@.len() implies !#[trigger] stmt_unhandled(kinds@[i]) by {
        assert(kinds@[i] == all[i].kind());
    }
    if !stopped {
        proof {
            k = all.len() as int;
        }
    }
    assert(stops_after(checks, k));
    assert(names(events@) == recorded_events(all.take(k)));
    let (def, result) = func_def(qual, name, param_types, return_type, kinds.as_slice(), &results);
    if def.is_none() {
        events = Vec::new();
    }
    (def, events, result)
}

/// In a function that declares no return type and passes the checks, no
/// statement is a `return`, so the return check's `UnexpectedReturn` never
/// comes from a statement.
pub proof fn lemma_no_return_type_no_return_check<T>(
    param_types: Seq<Result<T, SemanticError>>,
    stmts: Seq<StmtAnalysis>,
)
    ensures
        func_def_error(param_types, None, stmt_kinds(stmts)) is None ==> forall|i: int|
            0 <= i < stmts.len() ==> !(#[trigger] stmts[i] is Return),
{
    if func_def_error(param_types, None, stmt_kinds(stmts)) is None {
        assert forall|i: int| 0 <= i < stmts.len() implies !(#[trigger] stmts[i] is Return) by {
            if stmts[i] is Return {
                assert(stmt_kinds(stmts)[i] is Return);
            }
        }
    }
}

} // verus!
