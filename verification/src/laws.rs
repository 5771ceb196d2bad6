//! What the operations are for, stated over all inputs: which instructions end
//! a block and where control goes, which bodies fit a return type, which error
//! a run of checks reports, and how each statement and argument is checked.

use vstd::prelude::*;
use crate::builtins::Intrinsic;
use crate::functions::{
    arg_check, arg_checks, binding_of, first_error, func_def_error, has_return, ok_values,
    outcome, recorded_events, return_check, returns_or_reverts, stmt_action, stmt_checks,
    stmt_kinds, stmt_unhandled, stops_after, FixedSize, FuncStmtKind, ParamBinding,
    SemanticError, StmtAction, StmtAnalysis,
};
use crate::inst::{yul_op_of, BinOp, BranchInfo, CallType, InstKind, UnOp, YulIntrinsicOp};

verus! {

/// Control instructions end their block; every other instruction falls
/// through, except an intrinsic call whose builtin returns, reverts,
/// self-destructs or is invalid.
pub proof fn lemma_block_ends_only_at_control(kind: InstKind)
    ensures
        kind is Jump || kind is Branch || kind is Revert || kind is Return ==> kind.ends_block(),
        kind is Declare || kind is Assign || kind is Unary || kind is Binary || kind is Cast
            || kind is AggregateConstruct || kind is AggregateAccess || kind is MapAccess
            || kind is Call || kind is Emit || kind is Keccak256 || kind is Clone
            || kind is ToMem || kind is AbiEncode || kind is Create || kind is Create2
            ==> !kind.ends_block(),
        kind matches InstKind::YulIntrinsic { op, .. } ==> (kind.ends_block() <==> (op
            == YulIntrinsicOp::Return || op == YulIntrinsicOp::Revert || op
            == YulIntrinsicOp::Selfdestruct || op == YulIntrinsicOp::Invalid)),
{
}

/// Exactly four builtins end a block.
pub proof fn lemma_yul_terminators(op: YulIntrinsicOp)
    ensures
        op.is_terminator() <==> (op == YulIntrinsicOp::Return || op == YulIntrinsicOp::Revert
            || op == YulIntrinsicOp::Selfdestruct || op == YulIntrinsicOp::Invalid),
{
}

/// A jump names its destination, a branch its two successors in order, and
/// nothing else names a successor.
pub proof fn lemma_successors(kind: InstKind)
    ensures
        kind matches InstKind::Jump { dest } ==> kind.branch_targets() == BranchInfo::Jump(dest),
        kind matches InstKind::Branch { then_, else_, .. } ==> kind.branch_targets()
            == BranchInfo::Branch((then_, else_)),
        !(kind is Jump) && !(kind is Branch) ==> kind.branch_targets() is NotBranch,
{
}

/// A body returns or reverts exactly when one of its statements is a
/// `return` (with or without a value) or a `revert`; it returns exactly when
/// one of its statements is a `return`.
pub proof fn lemma_return_paths(body: Seq<FuncStmtKind>)
    ensures
        returns_or_reverts(body) <==> exists|i: int|
            0 <= i < body.len() && (#[trigger] body[i] == FuncStmtKind::Revert || body[i]
                == (FuncStmtKind::Return { has_value: true }) || body[i]
                == (FuncStmtKind::Return { has_value: false })),
        has_return(body) <==> exists|i: int|
            0 <= i < body.len() && (#[trigger] body[i] == (FuncStmtKind::Return {
                has_value: true,
            }) || body[i] == (FuncStmtKind::Return { has_value: false })),
{
    if returns_or_reverts(body) {
        let i = choose|i: int|
            0 <= i < body.len() && (#[trigger] body[i] is Return || body[i] is Revert);
        assert(body[i] == FuncStmtKind::Revert || body[i] == (FuncStmtKind::Return {
            has_value: true,
        }) || body[i] == (FuncStmtKind::Return { has_value: false }));
    }
    if has_return(body) {
        let i = choose|i: int| 0 <= i < body.len() && #[trigger] body[i] is Return;
        assert(body[i] == (FuncStmtKind::Return { has_value: true }) || body[i]
            == (FuncStmtKind::Return { has_value: false }));
    }
}

/// A body made only of statements that neither return nor revert does not
/// fit a return type, and a body without `return` fits having none.
pub proof fn lemma_bodies_without_exits(body: Seq<FuncStmtKind>)
    ensures
        (forall|i: int|
            0 <= i < body.len() ==> !(#[trigger] body[i] is Return) && body[i]
                != FuncStmtKind::Revert) ==> !returns_or_reverts(body),
        (forall|i: int| 0 <= i < body.len() ==> !(#[trigger] body[i] is Return)) ==> !has_return(
            body,
        ),
{
}

/// A run of checks has no error exactly when every check passes; otherwise its
/// error is that of the first check that fails.
pub proof fn lemma_first_error_is_first_failure<T>(s: Seq<Result<T, SemanticError>>)
    ensures
        first_error(s) is None <==> forall|i: int| 0 <= i < s.len() ==> #[trigger] s[i] is Ok,
        forall|i: int|
            0 <= i < s.len() && #[trigger] s[i] is Err && (forall|j: int| 0 <= j < i ==> s[j] is Ok)
                ==> first_error(s) == Some(s[i]->Err_0),
    decreases s.len(),
{
    if s.len() > 0 {
        let t = s.drop_first();
        lemma_first_error_is_first_failure(t);
        assert forall|i: int| 0 < i < s.len() implies s[i] == #[trigger] t[i - 1] by {}
        if first_error(s) is None {
            assert forall|i: int| 0 <= i < s.len() implies #[trigger] s[i] is Ok by {
                if i > 0 {
                    assert(t[i - 1] is Ok);
                }
            }
        }
        if forall|i: int| 0 <= i < s.len() ==> #[trigger] s[i] is Ok {
            assert(s[0] is Ok);
            assert forall|i: int| 0 <= i < t.len() implies #[trigger] t[i] is Ok by {
                assert(s[i + 1] is Ok);
            }
        }
        assert forall|i: int|
            0 <= i < s.len() && #[trigger] s[i] is Err && (forall|j: int| 0 <= j < i ==> s[j] is Ok)
            implies first_error(s) == Some(s[i]->Err_0) by {
            if i > 0 {
                assert(s[0] is Ok);
                assert(t[i - 1] is Err);
                assert forall|j: int| 0 <= j < i - 1 implies t[j] is Ok by {
                    assert(s[j + 1] is Ok);
                }
            }
        }
    }
}

/// The checks of a definition come in order: a parameter type that fails to
/// resolve first, then a failed return type, then a body that does not fit
/// the return type. A body with a `return` or a `revert` fits a return type;
/// a body without `return` fits having none.
pub proof fn lemma_func_def_checks_in_order<T>(
    param_types: Seq<Result<T, SemanticError>>,
    return_type: Option<Result<T, SemanticError>>,
    body: Seq<FuncStmtKind>,
)
    ensures
        first_error(param_types) is Some ==> func_def_error(param_types, return_type, body)
            == first_error(param_types),
        first_error(param_types) is None ==> match return_type {
            Some(Err(e)) => func_def_error(param_types, return_type, body) == Some(e),
            Some(Ok(_)) => func_def_error(param_types, return_type, body) == if exists|i: int|
                0 <= i < body.len() && (#[trigger] body[i] is Return || body[i]
                    == FuncStmtKind::Revert) {
                None
            } else {
                Some(SemanticError::MissingReturn)
            },
            None => func_def_error(param_types, return_type, body) == if exists|i: int|
                0 <= i < body.len() && #[trigger] body[i] is Return {
                Some(SemanticError::UnexpectedReturn)
            } else {
                None
            },
        },
{
    lemma_return_paths(body);
}

/// A `return` with a value: an analysis error comes out unchanged; in a
/// function without a return type it is unexpected; otherwise it passes
/// exactly when the value has the declared type.
pub proof fn lemma_return_check(value: Result<bool, SemanticError>, declared: bool)
    ensures
        value matches Err(e) ==> return_check(value, declared) == Err::<(), SemanticError>(e),
        value is Ok && !declared ==> return_check(value, declared) == Err::<(), SemanticError>(
            SemanticError::UnexpectedReturn,
        ),
        value is Ok && declared ==> (return_check(value, declared) is Ok <==> value == Ok::<
            bool,
            SemanticError,
        >(true)),
        value == Ok::<bool, SemanticError>(false) && declared ==> return_check(value, declared)
            == Err::<(), SemanticError>(SemanticError::TypeError),
{
}

/// What the pass does with each kind of statement it handles, and which it
/// handles: a `return` with a value, declarations, assignments, emits and
/// reverts.
pub proof fn lemma_stmt_dispatch(stmt: FuncStmtKind)
    ensures
        !stmt_unhandled(stmt) <==> (stmt == (FuncStmtKind::Return { has_value: true }) || stmt
            == FuncStmtKind::VarDecl || stmt == FuncStmtKind::Assign || stmt == FuncStmtKind::Emit
            || stmt == FuncStmtKind::Revert),
        stmt is Return ==> stmt_action(stmt) == StmtAction::CheckReturn,
        stmt == FuncStmtKind::VarDecl ==> stmt_action(stmt) == StmtAction::DeclareVar,
        stmt == FuncStmtKind::Assign ==> stmt_action(stmt) == StmtAction::Assign,
        stmt == FuncStmtKind::Emit ==> stmt_action(stmt) == StmtAction::Emit,
        stmt == FuncStmtKind::Revert ==> stmt_action(stmt) == StmtAction::Accept,
{
}

/// An argument check passes exactly when the argument analyses with the right
/// type; an analysis error comes out unchanged, whatever it is; a wrong type
/// is a type error.
pub proof fn lemma_arg_check(value: Result<bool, SemanticError>)
    ensures
        value matches Err(e) ==> arg_check(value) == Err::<(), SemanticError>(e),
        arg_check(value) is Ok <==> value == Ok::<bool, SemanticError>(true),
        value == Ok::<bool, SemanticError>(false) ==> arg_check(value) == Err::<(), SemanticError>(
            SemanticError::TypeError,
        ),
{
}

/// The arguments of an emit pass exactly when each analyses with the right
/// type; otherwise the first that does not decides the error: its analysis
/// error, or a type error.
pub proof fn lemma_args_first_failure(args: Seq<Result<bool, SemanticError>>)
    ensures
        outcome(arg_checks(args)) is Ok <==> forall|i: int|
            0 <= i < args.len() ==> #[trigger] args[i] == Ok::<bool, SemanticError>(true),
        forall|i: int|
            0 <= i < args.len() && #[trigger] args[i] != Ok::<bool, SemanticError>(true) && (forall|
                j: int,
            | 0 <= j < i ==> args[j] == Ok::<bool, SemanticError>(true)) ==> outcome(
                arg_checks(args),
            ) == match args[i] {
                Err(e) => Err::<(), SemanticError>(e),
                Ok(_) => Err::<(), SemanticError>(SemanticError::TypeError),
            },
{
    let s = arg_checks(args);
    lemma_first_error_is_first_failure(s);
    assert forall|i: int| 0 <= i < args.len() implies #[trigger] s[i] == arg_check(args[i]) by {}
    if outcome(s) is Ok {
        assert forall|i: int| 0 <= i < args.len() implies #[trigger] args[i] == Ok::<
            bool,
            SemanticError,
        >(true) by {
            assert(s[i] is Ok);
            lemma_arg_check(args[i]);
        }
    }
    if forall|i: int| 0 <= i < args.len() ==> #[trigger] args[i] == Ok::<bool, SemanticError>(true) {
        assert forall|i: int| 0 <= i < s.len() implies #[trigger] s[i] is Ok by {
            assert(args[i] == Ok::<bool, SemanticError>(true));
        }
    }
    assert forall|i: int|
        0 <= i < args.len() && #[trigger] args[i] != Ok::<bool, SemanticError>(true) && (forall|
            j: int,
        | 0 <= j < i ==> args[j] == Ok::<bool, SemanticError>(true)) implies outcome(s) == match args[i] {
        Err(e) => Err::<(), SemanticError>(e),
        Ok(_) => Err::<(), SemanticError>(SemanticError::TypeError),
    } by {
        lemma_arg_check(args[i]);
        assert(s[i] is Err);
        assert forall|j: int| 0 <= j < i implies s[j] is Ok by {
            assert(args[j] == Ok::<bool, SemanticError>(true));
        }
    }
}

/// Each analysed statement has its own kind, and its check is its own: a
/// declaration or an assignment ends as its own check did, a `return` as the
/// return check against the declared return type, an emit by its event name
/// and then its arguments, and a `revert` passes. Only an emit whose name is
/// an event records that event.
pub proof fn lemma_stmt_checks(stmt: StmtAnalysis, declared: bool)
    ensures
        stmt is Return ==> stmt.kind() == (FuncStmtKind::Return { has_value: true }),
        stmt is VarDecl ==> stmt.kind() == FuncStmtKind::VarDecl,
        stmt is Assign ==> stmt.kind() == FuncStmtKind::Assign,
        stmt is Emit ==> stmt.kind() == FuncStmtKind::Emit,
        stmt is Revert ==> stmt.kind() == FuncStmtKind::Revert,
        stmt matches StmtAnalysis::VarDecl { outcome } ==> stmt.check(declared) == outcome,
        stmt matches StmtAnalysis::Assign { outcome } ==> stmt.check(declared) == outcome,
        stmt matches StmtAnalysis::Return { value } ==> stmt.check(declared) == return_check(
            value,
            declared,
        ),
        stmt is Revert ==> stmt.check(declared) == Ok::<(), SemanticError>(()),
        stmt matches StmtAnalysis::Emit { event_name: Err(e), .. } ==> stmt.check(declared)
            == Err::<(), SemanticError>(e),
        stmt matches StmtAnalysis::Emit { event_name: Ok(_), args, .. } ==> stmt.check(declared)
            == outcome(arg_checks(args@)),
        stmt matches StmtAnalysis::Emit { event_name: Ok(n), names_event: true, .. }
            ==> stmt.recorded_event() == Some(n@),
        !(stmt matches StmtAnalysis::Emit { event_name: Ok(_), names_event: true, .. })
            ==> stmt.recorded_event() is None,
{
}

/// A function with a return type whose parameter and return types resolve,
/// and whose body holds a `return` or a `revert`, passes the checks made
/// before the statements; one without a return type passes them when its
/// body holds no `return`.
pub proof fn lemma_exiting_bodies_pass<T>(
    param_types: Seq<Result<T, SemanticError>>,
    return_type: Option<Result<T, SemanticError>>,
    stmts: Seq<StmtAnalysis>,
)
    ensures
        (forall|i: int| 0 <= i < param_types.len() ==> #[trigger] param_types[i] is Ok)
            && (return_type matches Some(Ok(_))) && (exists|i: int|
            0 <= i < stmts.len() && (#[trigger] stmts[i] is Return || stmts[i] is Revert))
            ==> func_def_error(param_types, return_type, stmt_kinds(stmts)) is None,
        (forall|i: int| 0 <= i < param_types.len() ==> #[trigger] param_types[i] is Ok)
            && return_type is None && (forall|i: int|
            0 <= i < stmts.len() ==> !(#[trigger] stmts[i] is Return)) ==> func_def_error(
            param_types,
            return_type,
            stmt_kinds(stmts),
        ) is None,
{
    lemma_first_error_is_first_failure(param_types);
    let kinds = stmt_kinds(stmts);
    assert forall|i: int| 0 <= i < stmts.len() implies #[trigger] kinds[i] == stmts[i].kind() by {}
    if exists|i: int| 0 <= i < stmts.len() && (#[trigger] stmts[i] is Return || stmts[i] is Revert) {
        let i = choose|i: int|
            0 <= i < stmts.len() && (#[trigger] stmts[i] is Return || stmts[i] is Revert);
        assert(kinds[i] is Return || kinds[i] is Revert);
    }
    if forall|i: int| 0 <= i < stmts.len() ==> !(#[trigger] stmts[i] is Return) {
        assert forall|i: int| 0 <= i < kinds.len() implies !(#[trigger] kinds[i] is Return) by {
            assert(!(stmts[i] is Return));
        }
    }
}

/// A run of checks that passes throughout ends `Ok`; one with a failing check
/// ends with the error of the first that fails.
pub proof fn lemma_outcome_first_failure(s: Seq<Result<(), SemanticError>>)
    ensures
        outcome(s) is Ok <==> forall|i: int| 0 <= i < s.len() ==> #[trigger] s[i] is Ok,
        forall|i: int|
            0 <= i < s.len() && #[trigger] s[i] is Err && (forall|j: int| 0 <= j < i ==> s[j] is Ok)
                ==> outcome(s) == s[i],
{
    lemma_first_error_is_first_failure(s);
}

/// How each operator is written: `not`, `-` and `~` for the unary ones, the
/// usual symbols and `and`/`or` for the binary ones, and the call types by
/// name.
#[verifier::rlimit(40)]
pub proof fn lemma_operator_spellings()
    ensures
        UnOp::Not.text() == "not"@,
        UnOp::Neg.text() == "-"@,
        UnOp::Inv.text() == "~"@,
        BinOp::Add.text() == "+"@,
        BinOp::Sub.text() == "-"@,
        BinOp::Mul.text() == "*"@,
        BinOp::Div.text() == "/"@,
        BinOp::Mod.text() == "%"@,
        BinOp::Pow.text() == "**"@,
        BinOp::Shl.text() == "<<"@,
        BinOp::Shr.text() == ">>"@,
        BinOp::BitOr.text() == "|"@,
        BinOp::BitXor.text() == "^"@,
        BinOp::BitAnd.text() == "&"@,
        BinOp::LogicalAnd.text() == "and"@,
        BinOp::LogicalOr.text() == "or"@,
        BinOp::Eq.text() == "=="@,
        BinOp::Ne.text() == "!="@,
        BinOp::Ge.text() == ">="@,
        BinOp::Gt.text() == ">"@,
        BinOp::Le.text() == "<="@,
        BinOp::Lt.text() == "<"@,
        CallType::Internal.text() == "internal"@,
        CallType::External.text() == "external"@,
{
}

/// Each Yul builtin is written as its name in lower case after two
/// underscores.
#[verifier::rlimit(40)]
pub proof fn lemma_yul_spellings()
    ensures
        YulIntrinsicOp::Stop.text() == "__stop"@,
        YulIntrinsicOp::Add.text() == "__add"@,
        YulIntrinsicOp::Sub.text() == "__sub"@,
        YulIntrinsicOp::Mul.text() == "__mul"@,
        YulIntrinsicOp::Div.text() == "__div"@,
        YulIntrinsicOp::Sdiv.text() == "__sdiv"@,
        YulIntrinsicOp::Mod.text() == "__mod"@,
        YulIntrinsicOp::Smod.text() == "__smod"@,
        YulIntrinsicOp::Exp.text() == "__exp"@,
        YulIntrinsicOp::Not.text() == "__not"@,
        YulIntrinsicOp::Lt.text() == "__lt"@,
        YulIntrinsicOp::Gt.text() == "__gt"@,
        YulIntrinsicOp::Slt.text() == "__slt"@,
        YulIntrinsicOp::Sgt.text() == "__sgt"@,
        YulIntrinsicOp::Eq.text() == "__eq"@,
        YulIntrinsicOp::Iszero.text() == "__iszero"@,
        YulIntrinsicOp::And.text() == "__and"@,
        YulIntrinsicOp::Or.text() == "__or"@,
        YulIntrinsicOp::Xor.text() == "__xor"@,
        YulIntrinsicOp::Byte.text() == "__byte"@,
        YulIntrinsicOp::Shl.text() == "__shl"@,
        YulIntrinsicOp::Shr.text() == "__shr"@,
        YulIntrinsicOp::Sar.text() == "__sar"@,
        YulIntrinsicOp::Addmod.text() == "__addmod"@,
        YulIntrinsicOp::Mulmod.text() == "__mulmod"@,
        YulIntrinsicOp::Signextend.text() == "__signextend"@,
        YulIntrinsicOp::Keccak256.text() == "__keccak256"@,
        YulIntrinsicOp::Pc.text() == "__pc"@,
        YulIntrinsicOp::Pop.text() == "__pop"@,
        YulIntrinsicOp::Mload.text() == "__mload"@,
        YulIntrinsicOp::Mstore.text() == "__mstore"@,
        YulIntrinsicOp::Mstore8.text() == "__mstore8"@,
        YulIntrinsicOp::Sload.text() == "__sload"@,
        YulIntrinsicOp::Sstore.text() == "__sstore"@,
        YulIntrinsicOp::Msize.text() == "__msize"@,
        YulIntrinsicOp::Gas.text() == "__gas"@,
        YulIntrinsicOp::Address.text() == "__address"@,
        YulIntrinsicOp::Balance.text() == "__balance"@,
        YulIntrinsicOp::Selfbalance.text() == "__selfbalance"@,
        YulIntrinsicOp::Caller.text() == "__caller"@,
        YulIntrinsicOp::Callvalue.text() == "__callvalue"@,
        YulIntrinsicOp::Calldataload.text() == "__calldataload"@,
        YulIntrinsicOp::Calldatasize.text() == "__calldatasize"@,
        YulIntrinsicOp::Calldatacopy.text() == "__calldatacopy"@,
        YulIntrinsicOp::Codesize.text() == "__codesize"@,
        YulIntrinsicOp::Codecopy.text() == "__codecopy"@,
        YulIntrinsicOp::Extcodesize.text() == "__extcodesize"@,
        YulIntrinsicOp::Extcodecopy.text() == "__extcodecopy"@,
        YulIntrinsicOp::Returndatasize.text() == "__returndatasize"@,
        YulIntrinsicOp::Returndatacopy.text() == "__returndatacopy"@,
        YulIntrinsicOp::Extcodehash.text() == "__extcodehash"@,
        YulIntrinsicOp::Create.text() == "__create"@,
        YulIntrinsicOp::Create2.text() == "__create2"@,
        YulIntrinsicOp::Call.text() == "__call"@,
        YulIntrinsicOp::Callcode.text() == "__callcode"@,
        YulIntrinsicOp::Delegatecall.text() == "__delegatecall"@,
        YulIntrinsicOp::Staticcall.text() == "__staticcall"@,
        YulIntrinsicOp::Return.text() == "__return"@,
        YulIntrinsicOp::Revert.text() == "__revert"@,
        YulIntrinsicOp::Selfdestruct.text() == "__selfdestruct"@,
        YulIntrinsicOp::Invalid.text() == "__invalid"@,
        YulIntrinsicOp::Log0.text() == "__log0"@,
        YulIntrinsicOp::Log1.text() == "__log1"@,
        YulIntrinsicOp::Log2.text() == "__log2"@,
        YulIntrinsicOp::Log3.text() == "__log3"@,
        YulIntrinsicOp::Log4.text() == "__log4"@,
        YulIntrinsicOp::Chainid.text() == "__chainid"@,
        YulIntrinsicOp::Basefee.text() == "__basefee"@,
        YulIntrinsicOp::Origin.text() == "__origin"@,
        YulIntrinsicOp::Gasprice.text() == "__gasprice"@,
        YulIntrinsicOp::Blockhash.text() == "__blockhash"@,
        YulIntrinsicOp::Coinbase.text() == "__coinbase"@,
        YulIntrinsicOp::Timestamp.text() == "__timestamp"@,
        YulIntrinsicOp::Number.text() == "__number"@,
        YulIntrinsicOp::Difficulty.text() == "__difficulty"@,
        YulIntrinsicOp::Gaslimit.text() == "__gaslimit"@,
{
}

/// Each intrinsic is called in source by its own name.
#[verifier::rlimit(40)]
pub proof fn lemma_intrinsic_names()
    ensures
        Intrinsic::__stop.name() == "__stop"@,
        Intrinsic::__add.name() == "__add"@,
        Intrinsic::__sub.name() == "__sub"@,
        Intrinsic::__mul.name() == "__mul"@,
        Intrinsic::__div.name() == "__div"@,
        Intrinsic::__sdiv.name() == "__sdiv"@,
        Intrinsic::__mod.name() == "__mod"@,
        Intrinsic::__smod.name() == "__smod"@,
        Intrinsic::__exp.name() == "__exp"@,
        Intrinsic::__not.name() == "__not"@,
        Intrinsic::__lt.name() == "__lt"@,
        Intrinsic::__gt.name() == "__gt"@,
        Intrinsic::__slt.name() == "__slt"@,
        Intrinsic::__sgt.name() == "__sgt"@,
        Intrinsic::__eq.name() == "__eq"@,
        Intrinsic::__iszero.name() == "__iszero"@,
        Intrinsic::__and.name() == "__and"@,
        Intrinsic::__or.name() == "__or"@,
        Intrinsic::__xor.name() == "__xor"@,
        Intrinsic::__byte.name() == "__byte"@,
        Intrinsic::__shl.name() == "__shl"@,
        Intrinsic::__shr.name() == "__shr"@,
        Intrinsic::__sar.name() == "__sar"@,
        Intrinsic::__addmod.name() == "__addmod"@,
        Intrinsic::__mulmod.name() == "__mulmod"@,
        Intrinsic::__signextend.name() == "__signextend"@,
        Intrinsic::__keccak256.name() == "__keccak256"@,
        Intrinsic::__pc.name() == "__pc"@,
        Intrinsic::__pop.name() == "__pop"@,
        Intrinsic::__mload.name() == "__mload"@,
        Intrinsic::__mstore.name() == "__mstore"@,
        Intrinsic::__mstore8.name() == "__mstore8"@,
        Intrinsic::__sload.name() == "__sload"@,
        Intrinsic::__sstore.name() == "__sstore"@,
        Intrinsic::__msize.name() == "__msize"@,
        Intrinsic::__gas.name() == "__gas"@,
        Intrinsic::__address.name() == "__address"@,
        Intrinsic::__balance.name() == "__balance"@,
        Intrinsic::__selfbalance.name() == "__selfbalance"@,
        Intrinsic::__caller.name() == "__caller"@,
        Intrinsic::__callvalue.name() == "__callvalue"@,
        Intrinsic::__calldataload.name() == "__calldataload"@,
        Intrinsic::__calldatasize.name() == "__calldatasize"@,
        Intrinsic::__calldatacopy.name() == "__calldatacopy"@,
        Intrinsic::__codesize.name() == "__codesize"@,
        Intrinsic::__codecopy.name() == "__codecopy"@,
        Intrinsic::__extcodesize.name() == "__extcodesize"@,
        Intrinsic::__extcodecopy.name() == "__extcodecopy"@,
        Intrinsic::__returndatasize.name() == "__returndatasize"@,
        Intrinsic::__returndatacopy.name() == "__returndatacopy"@,
        Intrinsic::__extcodehash.name() == "__extcodehash"@,
        Intrinsic::__create.name() == "__create"@,
        Intrinsic::__create2.name() == "__create2"@,
        Intrinsic::__call.name() == "__call"@,
        Intrinsic::__callcode.name() == "__callcode"@,
        Intrinsic::__delegatecall.name() == "__delegatecall"@,
        Intrinsic::__staticcall.name() == "__staticcall"@,
        Intrinsic::__return.name() == "__return"@,
        Intrinsic::__revert.name() == "__revert"@,
        Intrinsic::__selfdestruct.name() == "__selfdestruct"@,
        Intrinsic::__invalid.name() == "__invalid"@,
        Intrinsic::__log0.name() == "__log0"@,
        Intrinsic::__log1.name() == "__log1"@,
        Intrinsic::__log2.name() == "__log2"@,
        Intrinsic::__log3.name() == "__log3"@,
        Intrinsic::__log4.name() == "__log4"@,
        Intrinsic::__chainid.name() == "__chainid"@,
        Intrinsic::__basefee.name() == "__basefee"@,
        Intrinsic::__origin.name() == "__origin"@,
        Intrinsic::__gasprice.name() == "__gasprice"@,
        Intrinsic::__blockhash.name() == "__blockhash"@,
        Intrinsic::__coinbase.name() == "__coinbase"@,
        Intrinsic::__timestamp.name() == "__timestamp"@,
        Intrinsic::__number.name() == "__number"@,
        Intrinsic::__difficulty.name() == "__difficulty"@,
        Intrinsic::__gaslimit.name() == "__gaslimit"@,
{
}

/// Each intrinsic stands for the Yul builtin of the same name.
#[verifier::rlimit(40)]
pub proof fn lemma_intrinsic_builtins()
    ensures
        yul_op_of(Intrinsic::__stop) == YulIntrinsicOp::Stop,
        yul_op_of(Intrinsic::__add) == YulIntrinsicOp::Add,
        yul_op_of(Intrinsic::__sub) == YulIntrinsicOp::Sub,
        yul_op_of(Intrinsic::__mul) == YulIntrinsicOp::Mul,
        yul_op_of(Intrinsic::__div) == YulIntrinsicOp::Div,
        yul_op_of(Intrinsic::__sdiv) == YulIntrinsicOp::Sdiv,
        yul_op_of(Intrinsic::__mod) == YulIntrinsicOp::Mod,
        yul_op_of(Intrinsic::__smod) == YulIntrinsicOp::Smod,
        yul_op_of(Intrinsic::__exp) == YulIntrinsicOp::Exp,
        yul_op_of(Intrinsic::__not) == YulIntrinsicOp::Not,
        yul_op_of(Intrinsic::__lt) == YulIntrinsicOp::Lt,
        yul_op_of(Intrinsic::__gt) == YulIntrinsicOp::Gt,
        yul_op_of(Intrinsic::__slt) == YulIntrinsicOp::Slt,
        yul_op_of(Intrinsic::__sgt) == YulIntrinsicOp::Sgt,
        yul_op_of(Intrinsic::__eq) == YulIntrinsicOp::Eq,
        yul_op_of(Intrinsic::__iszero) == YulIntrinsicOp::Iszero,
        yul_op_of(Intrinsic::__and) == YulIntrinsicOp::And,
        yul_op_of(Intrinsic::__or) == YulIntrinsicOp::Or,
        yul_op_of(Intrinsic::__xor) == YulIntrinsicOp::Xor,
        yul_op_of(Intrinsic::__byte) == YulIntrinsicOp::Byte,
        yul_op_of(Intrinsic::__shl) == YulIntrinsicOp::Shl,
        yul_op_of(Intrinsic::__shr) == YulIntrinsicOp::Shr,
        yul_op_of(Intrinsic::__sar) == YulIntrinsicOp::Sar,
        yul_op_of(Intrinsic::__addmod) == YulIntrinsicOp::Addmod,
        yul_op_of(Intrinsic::__mulmod) == YulIntrinsicOp::Mulmod,
        yul_op_of(Intrinsic::__signextend) == YulIntrinsicOp::Signextend,
        yul_op_of(Intrinsic::__keccak256) == YulIntrinsicOp::Keccak256,
        yul_op_of(Intrinsic::__pc) == YulIntrinsicOp::Pc,
        yul_op_of(Intrinsic::__pop) == YulIntrinsicOp::Pop,
        yul_op_of(Intrinsic::__mload) == YulIntrinsicOp::Mload,
        yul_op_of(Intrinsic::__mstore) == YulIntrinsicOp::Mstore,
        yul_op_of(Intrinsic::__mstore8) == YulIntrinsicOp::Mstore8,
        yul_op_of(Intrinsic::__sload) == YulIntrinsicOp::Sload,
        yul_op_of(Intrinsic::__sstore) == YulIntrinsicOp::Sstore,
        yul_op_of(Intrinsic::__msize) == YulIntrinsicOp::Msize,
        yul_op_of(Intrinsic::__gas) == YulIntrinsicOp::Gas,
        yul_op_of(Intrinsic::__address) == YulIntrinsicOp::Address,
        yul_op_of(Intrinsic::__balance) == YulIntrinsicOp::Balance,
        yul_op_of(Intrinsic::__selfbalance) == YulIntrinsicOp::Selfbalance,
        yul_op_of(Intrinsic::__caller) == YulIntrinsicOp::Caller,
        yul_op_of(Intrinsic::__callvalue) == YulIntrinsicOp::Callvalue,
        yul_op_of(Intrinsic::__calldataload) == YulIntrinsicOp::Calldataload,
        yul_op_of(Intrinsic::__calldatasize) == YulIntrinsicOp::Calldatasize,
        yul_op_of(Intrinsic::__calldatacopy) == YulIntrinsicOp::Calldatacopy,
        yul_op_of(Intrinsic::__codesize) == YulIntrinsicOp::Codesize,
        yul_op_of(Intrinsic::__codecopy) == YulIntrinsicOp::Codecopy,
        yul_op_of(Intrinsic::__extcodesize) == YulIntrinsicOp::Extcodesize,
        yul_op_of(Intrinsic::__extcodecopy) == YulIntrinsicOp::Extcodecopy,
        yul_op_of(Intrinsic::__returndatasize) == YulIntrinsicOp::Returndatasize,
        yul_op_of(Intrinsic::__returndatacopy) == YulIntrinsicOp::Returndatacopy,
        yul_op_of(Intrinsic::__extcodehash) == YulIntrinsicOp::Extcodehash,
        yul_op_of(Intrinsic::__create) == YulIntrinsicOp::Create,
        yul_op_of(Intrinsic::__create2) == YulIntrinsicOp::Create2,
        yul_op_of(Intrinsic::__call) == YulIntrinsicOp::Call,
        yul_op_of(Intrinsic::__callcode) == YulIntrinsicOp::Callcode,
        yul_op_of(Intrinsic::__delegatecall) == YulIntrinsicOp::Delegatecall,
        yul_op_of(Intrinsic::__staticcall) == YulIntrinsicOp::Staticcall,
        yul_op_of(Intrinsic::__return) == YulIntrinsicOp::Return,
        yul_op_of(Intrinsic::__revert) == YulIntrinsicOp::Revert,
        yul_op_of(Intrinsic::__selfdestruct) == YulIntrinsicOp::Selfdestruct,
        yul_op_of(Intrinsic::__invalid) == YulIntrinsicOp::Invalid,
        yul_op_of(Intrinsic::__log0) == YulIntrinsicOp::Log0,
        yul_op_of(Intrinsic::__log1) == YulIntrinsicOp::Log1,
        yul_op_of(Intrinsic::__log2) == YulIntrinsicOp::Log2,
        yul_op_of(Intrinsic::__log3) == YulIntrinsicOp::Log3,
        yul_op_of(Intrinsic::__log4) == YulIntrinsicOp::Log4,
        yul_op_of(Intrinsic::__chainid) == YulIntrinsicOp::Chainid,
        yul_op_of(Intrinsic::__basefee) == YulIntrinsicOp::Basefee,
        yul_op_of(Intrinsic::__origin) == YulIntrinsicOp::Origin,
        yul_op_of(Intrinsic::__gasprice) == YulIntrinsicOp::Gasprice,
        yul_op_of(Intrinsic::__blockhash) == YulIntrinsicOp::Blockhash,
        yul_op_of(Intrinsic::__coinbase) == YulIntrinsicOp::Coinbase,
        yul_op_of(Intrinsic::__timestamp) == YulIntrinsicOp::Timestamp,
        yul_op_of(Intrinsic::__number) == YulIntrinsicOp::Number,
        yul_op_of(Intrinsic::__difficulty) == YulIntrinsicOp::Difficulty,
        yul_op_of(Intrinsic::__gaslimit) == YulIntrinsicOp::Gaslimit,
{
}

/// The resolved parameter types are the values of the results, one for one
/// and in order.
pub proof fn lemma_ok_values<T>(s: Seq<Result<T, SemanticError>>)
    ensures
        ok_values(s).len() == s.len(),
        forall|i: int| 0 <= i < s.len() ==> #[trigger] s[i] == Ok::<T, SemanticError>(ok_values(s)[i]) || s[i] is Err,
{
}

/// A parameter of a base type is bound as a base variable, one of an array
/// type as an array variable.
pub proof fn lemma_param_binding<B, A>(t: FixedSize<B, A>)
    ensures
        t is Base ==> binding_of(t) == ParamBinding::Base,
        t is Array ==> binding_of(t) == ParamBinding::Array,
{
}

/// The statements' kinds and checks are those of each statement, one for one
/// and in order.
pub proof fn lemma_stmt_sequences(stmts: Seq<StmtAnalysis>, declared: bool)
    ensures
        stmt_kinds(stmts).len() == stmts.len(),
        stmt_checks(stmts, declared).len() == stmts.len(),
        forall|i: int| 0 <= i < stmts.len() ==> #[trigger] stmt_kinds(stmts)[i] == stmts[i].kind(),
        forall|i: int|
            0 <= i < stmts.len() ==> #[trigger] stmt_checks(stmts, declared)[i] == stmts[i].check(
                declared,
            ),
{
}

/// The events recorded by statements are those of each statement that records
/// one, in order: none for no statements, and one more at the end for a
/// statement that records one.
pub proof fn lemma_recorded_events(stmts: Seq<StmtAnalysis>, stmt: StmtAnalysis)
    ensures
        recorded_events(Seq::<StmtAnalysis>::empty()) == Seq::<Seq<char>>::empty(),
        recorded_events(stmts.push(stmt)) == match stmt.recorded_event() {
            Some(n) => recorded_events(stmts).push(n),
            None => recorded_events(stmts),
        },
{
    assert(stmts.push(stmt).drop_last() =~= stmts);
}

/// Checking stops after all the statements when every check passes, and
/// otherwise right after the first that fails.
pub proof fn lemma_stops_after(checks: Seq<Result<(), SemanticError>>, k: int)
    ensures
        stops_after(checks, k) <==> {
            ||| k == checks.len() && forall|i: int| 0 <= i < checks.len() ==> #[trigger] checks[i] is Ok
            ||| 0 < k <= checks.len() && checks[k - 1] is Err && forall|j: int|
                0 <= j < k - 1 ==> #[trigger] checks[j] is Ok
        },
{
    lemma_first_error_is_first_failure(checks);
    if 0 < k <= checks.len() {
        let p = checks.take(k - 1);
        lemma_first_error_is_first_failure(p);
        assert forall|j: int| 0 <= j < k - 1 implies #[trigger] p[j] == checks[j] by {}
        if forall|j: int| 0 <= j < k - 1 ==> #[trigger] checks[j] is Ok {
            assert forall|j: int| 0 <= j < p.len() implies #[trigger] p[j] is Ok by {
                assert(checks[j] is Ok);
            }
        }
        if first_error(p) is None {
            assert forall|j: int| 0 <= j < k - 1 implies #[trigger] checks[j] is Ok by {
                assert(p[j] is Ok);
            }
        }
    }
}

} // verus!
