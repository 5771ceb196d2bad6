use fe_mir_inst::builtins::Intrinsic;
use fe_mir_inst::ids::{BasicBlock, BasicBlockId, ContractId, FunctionId, NodeId, SourceInfo, Span, TypeId, Value, ValueId};
use fe_mir_inst::inst::{BinOp, BranchInfo, CallType, Inst, InstKind, UnOp, YulIntrinsicOp};
use id_arena::Arena;

fn source() -> SourceInfo {
    SourceInfo { span: Span { start: 3, end: 9 }, id: NodeId(7) }
}

fn values(n: usize) -> Vec<ValueId> {
    let mut arena: Arena<Value> = Arena::new();
    (0..n).map(|_| arena.alloc(Value {})).collect()
}

fn blocks(n: usize) -> Vec<BasicBlockId> {
    let mut arena: Arena<BasicBlock> = Arena::new();
    (0..n).map(|_| arena.alloc(BasicBlock {})).collect()
}

fn all_intrinsics() -> Vec<(Intrinsic, YulIntrinsicOp)> {
    vec![
        (Intrinsic::__stop, YulIntrinsicOp::Stop),
        (Intrinsic::__add, YulIntrinsicOp::Add),
        (Intrinsic::__sub, YulIntrinsicOp::Sub),
        (Intrinsic::__mul, YulIntrinsicOp::Mul),
        (Intrinsic::__div, YulIntrinsicOp::Div),
        (Intrinsic::__sdiv, YulIntrinsicOp::Sdiv),
        (Intrinsic::__mod, YulIntrinsicOp::Mod),
        (Intrinsic::__smod, YulIntrinsicOp::Smod),
        (Intrinsic::__exp, YulIntrinsicOp::Exp),
        (Intrinsic::__not, YulIntrinsicOp::Not),
        (Intrinsic::__lt, YulIntrinsicOp::Lt),
        (Intrinsic::__gt, YulIntrinsicOp::Gt),
        (Intrinsic::__slt, YulIntrinsicOp::Slt),
        (Intrinsic::__sgt, YulIntrinsicOp::Sgt),
        (Intrinsic::__eq, YulIntrinsicOp::Eq),
        (Intrinsic::__iszero, YulIntrinsicOp::Iszero),
        (Intrinsic::__and, YulIntrinsicOp::And),
        (Intrinsic::__or, YulIntrinsicOp::Or),
        (Intrinsic::__xor, YulIntrinsicOp::Xor),
        (Intrinsic::__byte, YulIntrinsicOp::Byte),
        (Intrinsic::__shl, YulIntrinsicOp::Shl),
        (Intrinsic::__shr, YulIntrinsicOp::Shr),
        (Intrinsic::__sar, YulIntrinsicOp::Sar),
        (Intrinsic::__addmod, YulIntrinsicOp::Addmod),
        (Intrinsic::__mulmod, YulIntrinsicOp::Mulmod),
        (Intrinsic::__signextend, YulIntrinsicOp::Signextend),
        (Intrinsic::__keccak256, YulIntrinsicOp::Keccak256),
        (Intrinsic::__pc, YulIntrinsicOp::Pc),
        (Intrinsic::__pop, YulIntrinsicOp::Pop),
        (Intrinsic::__mload, YulIntrinsicOp::Mload),
        (Intrinsic::__mstore, YulIntrinsicOp::Mstore),
        (Intrinsic::__mstore8, YulIntrinsicOp::Mstore8),
        (Intrinsic::__sload, YulIntrinsicOp::Sload),
        (Intrinsic::__sstore, YulIntrinsicOp::Sstore),
        (Intrinsic::__msize, YulIntrinsicOp::Msize),
        (Intrinsic::__gas, YulIntrinsicOp::Gas),
        (Intrinsic::__address, YulIntrinsicOp::Address),
        (Intrinsic::__balance, YulIntrinsicOp::Balance),
        (Intrinsic::__selfbalance, YulIntrinsicOp::Selfbalance),
        (Intrinsic::__caller, YulIntrinsicOp::Caller),
        (Intrinsic::__callvalue, YulIntrinsicOp::Callvalue),
        (Intrinsic::__calldataload, YulIntrinsicOp::Calldataload),
        (Intrinsic::__calldatasize, YulIntrinsicOp::Calldatasize),
        (Intrinsic::__calldatacopy, YulIntrinsicOp::Calldatacopy),
        (Intrinsic::__codesize, YulIntrinsicOp::Codesize),
        (Intrinsic::__codecopy, YulIntrinsicOp::Codecopy),
        (Intrinsic::__extcodesize, YulIntrinsicOp::Extcodesize),
        (Intrinsic::__extcodecopy, YulIntrinsicOp::Extcodecopy),
        (Intrinsic::__returndatasize, YulIntrinsicOp::Returndatasize),
        (Intrinsic::__returndatacopy, YulIntrinsicOp::Returndatacopy),
        (Intrinsic::__extcodehash, YulIntrinsicOp::Extcodehash),
        (Intrinsic::__create, YulIntrinsicOp::Create),
        (Intrinsic::__create2, YulIntrinsicOp::Create2),
        (Intrinsic::__call, YulIntrinsicOp::Call),
        (Intrinsic::__callcode, YulIntrinsicOp::Callcode),
        (Intrinsic::__delegatecall, YulIntrinsicOp::Delegatecall),
        (Intrinsic::__staticcall, YulIntrinsicOp::Staticcall),
        (Intrinsic::__return, YulIntrinsicOp::Return),
        (Intrinsic::__revert, YulIntrinsicOp::Revert),
        (Intrinsic::__selfdestruct, YulIntrinsicOp::Selfdestruct),
        (Intrinsic::__invalid, YulIntrinsicOp::Invalid),
        (Intrinsic::__log0, YulIntrinsicOp::Log0),
        (Intrinsic::__log1, YulIntrinsicOp::Log1),
        (Intrinsic::__log2, YulIntrinsicOp::Log2),
        (Intrinsic::__log3, YulIntrinsicOp::Log3),
        (Intrinsic::__log4, YulIntrinsicOp::Log4),
        (Intrinsic::__chainid, YulIntrinsicOp::Chainid),
        (Intrinsic::__basefee, YulIntrinsicOp::Basefee),
        (Intrinsic::__origin, YulIntrinsicOp::Origin),
        (Intrinsic::__gasprice, YulIntrinsicOp::Gasprice),
        (Intrinsic::__blockhash, YulIntrinsicOp::Blockhash),
        (Intrinsic::__coinbase, YulIntrinsicOp::Coinbase),
        (Intrinsic::__timestamp, YulIntrinsicOp::Timestamp),
        (Intrinsic::__number, YulIntrinsicOp::Number),
        (Intrinsic::__difficulty, YulIntrinsicOp::Difficulty),
        (Intrinsic::__gaslimit, YulIntrinsicOp::Gaslimit),
    ]
}

#[test]
fn constructors_build_the_named_kind() {
    let v = values(3);
    let inst = Inst::unary(UnOp::Neg, v[0], source());
    assert_eq!(inst.kind, InstKind::Unary { op: UnOp::Neg, value: v[0] });
    assert_eq!(inst.source, source());

    let inst = Inst::binary(BinOp::Pow, v[1], v[2], source());
    assert_eq!(inst.kind, InstKind::Binary { op: BinOp::Pow, lhs: v[1], rhs: v[2] });

    let inst = Inst::intrinsic(YulIntrinsicOp::Mstore, vec![v[0], v[1]], source());
    assert_eq!(inst.kind, InstKind::YulIntrinsic { op: YulIntrinsicOp::Mstore, args: vec![v[0], v[1]] });

    let kind = InstKind::Cast { value: v[2], to: TypeId(4) };
    let inst = Inst::new(kind.clone(), source());
    assert_eq!(inst.kind, kind);
    assert_eq!(inst.source, source());
}

#[test]
fn terminators() {
    let v = values(2);
    let b = blocks(2);
    let s = source();
    assert!(Inst::new(InstKind::Jump { dest: b[0] }, s).is_terminator());
    assert!(Inst::new(InstKind::Branch { cond: v[0], then_: b[0], else_: b[1] }, s).is_terminator());
    assert!(Inst::new(InstKind::Revert { arg: v[0] }, s).is_terminator());
    assert!(Inst::new(InstKind::Return { arg: v[0] }, s).is_terminator());
    assert!(Inst::intrinsic(YulIntrinsicOp::Revert, vec![v[0], v[1]], s).is_terminator());
    assert!(Inst::intrinsic(YulIntrinsicOp::Invalid, vec![], s).is_terminator());
    assert!(!Inst::intrinsic(YulIntrinsicOp::Add, vec![v[0], v[1]], s).is_terminator());
    assert!(!Inst::binary(BinOp::Add, v[0], v[1], s).is_terminator());
    assert!(!Inst::unary(UnOp::Not, v[0], s).is_terminator());
    assert!(!Inst::new(InstKind::Emit { arg: v[0] }, s).is_terminator());
    assert!(!Inst::new(InstKind::Call { func: FunctionId(1), args: vec![v[1]], call_type: CallType::External }, s).is_terminator());
    assert!(!Inst::new(InstKind::Create2 { value: v[0], salt: v[1], contract: ContractId(2) }, s).is_terminator());
}

#[test]
fn yul_terminators_are_exactly_four() {
    let terminating: Vec<YulIntrinsicOp> = all_intrinsics().into_iter().map(|(_, op)| op).filter(|op| op.is_terminator()).collect();
    assert_eq!(terminating, vec![YulIntrinsicOp::Return, YulIntrinsicOp::Revert, YulIntrinsicOp::Selfdestruct, YulIntrinsicOp::Invalid]);
}

#[test]
fn branch_info_names_successors() {
    let v = values(1);
    let b = blocks(3);
    let s = source();
    match Inst::new(InstKind::Jump { dest: b[2] }, s).branch_info() {
        BranchInfo::Jump(d) => assert_eq!(d, b[2]),
        _ => panic!("a jump names its destination"),
    }
    match Inst::new(InstKind::Branch { cond: v[0], then_: b[1], else_: b[0] }, s).branch_info() {
        BranchInfo::Branch((t, e)) => {
            assert_eq!(t, b[1]);
            assert_eq!(e, b[0]);
        }
        _ => panic!("a branch names both successors"),
    }
    assert!(matches!(Inst::new(InstKind::Return { arg: v[0] }, s).branch_info(), BranchInfo::NotBranch));
    assert!(matches!(Inst::unary(UnOp::Inv, v[0], s).branch_info(), BranchInfo::NotBranch));
}

#[test]
fn branching_instructions_terminate() {
    let v = values(1);
    let b = blocks(2);
    let s = source();
    let insts = vec![
        Inst::new(InstKind::Jump { dest: b[0] }, s),
        Inst::new(InstKind::Branch { cond: v[0], then_: b[0], else_: b[1] }, s),
        Inst::new(InstKind::Declare { local: v[0] }, s),
        Inst::intrinsic(YulIntrinsicOp::Return, vec![], s),
    ];
    for inst in &insts {
        if !matches!(inst.branch_info(), BranchInfo::NotBranch) {
            assert!(inst.is_terminator());
        }
    }
}

#[test]
fn cloned_instruction_keeps_its_ids() {
    let v = values(2);
    let inst = Inst::new(InstKind::AggregateConstruct { ty: TypeId(1), args: vec![v[1], v[0]] }, source());
    let copy = inst.clone();
    assert_eq!(copy, inst);
    assert_ne!(copy.kind, InstKind::AggregateConstruct { ty: TypeId(1), args: vec![v[0], v[1]] });
}

#[test]
fn operator_texts() {
    assert_eq!(UnOp::Not.to_string(), "not");
    assert_eq!(UnOp::Neg.to_string(), "-");
    assert_eq!(UnOp::Inv.to_string(), "~");
    let bins = [
        (BinOp::Add, "+"), (BinOp::Sub, "-"), (BinOp::Mul, "*"), (BinOp::Div, "/"), (BinOp::Mod, "%"),
        (BinOp::Pow, "**"), (BinOp::Shl, "<<"), (BinOp::Shr, ">>"), (BinOp::BitOr, "|"),
        (BinOp::BitXor, "^"), (BinOp::BitAnd, "&"), (BinOp::LogicalAnd, "and"),
        (BinOp::LogicalOr, "or"), (BinOp::Eq, "=="), (BinOp::Ne, "!="), (BinOp::Ge, ">="),
        (BinOp::Gt, ">"), (BinOp::Le, "<="), (BinOp::Lt, "<"),
    ];
    for (op, text) in bins {
        assert_eq!(op.to_string(), text);
    }
    assert_eq!(CallType::Internal.to_string(), "internal");
    assert_eq!(CallType::External.to_string(), "external");
    assert_eq!(YulIntrinsicOp::Stop.to_string(), "__stop");
    assert_eq!(YulIntrinsicOp::Calldatacopy.to_string(), "__calldatacopy");
    assert_eq!(YulIntrinsicOp::Gaslimit.to_string(), "__gaslimit");
}

#[test]
fn yul_text_is_lowercase_name_with_underscores() {
    for (_, op) in all_intrinsics() {
        assert_eq!(op.to_string(), format!("__{}", format!("{:?}", op).to_lowercase()));
    }
}

#[test]
fn intrinsic_conversion() {
    assert_eq!(YulIntrinsicOp::from(Intrinsic::__add), YulIntrinsicOp::Add);
    assert_eq!(YulIntrinsicOp::from(Intrinsic::__sstore), YulIntrinsicOp::Sstore);
    let op: YulIntrinsicOp = Intrinsic::__create2.into();
    assert_eq!(op, YulIntrinsicOp::Create2);
    for (i, op) in all_intrinsics() {
        assert_eq!(YulIntrinsicOp::from(i), op);
    }
}

#[test]
fn intrinsic_conversion_is_one_to_one() {
    let all = all_intrinsics();
    assert_eq!(all.len(), 76);
    for (i, a) in &all {
        for (j, b) in &all {
            assert_eq!(YulIntrinsicOp::from(*i) == YulIntrinsicOp::from(*j), i == j);
            assert_eq!(a == b, i == j);
        }
    }
}

#[test]
fn converted_intrinsic_prints_its_name() {
    for (i, _) in all_intrinsics() {
        assert_eq!(YulIntrinsicOp::from(i).to_string(), i.as_str());
    }
    assert_eq!(Intrinsic::__mulmod.as_str(), "__mulmod");
}

#[test]
fn converted_intrinsic_terminates() {
    for (i, _) in all_intrinsics() {
        let expected = matches!(i, Intrinsic::__return | Intrinsic::__revert | Intrinsic::__selfdestruct | Intrinsic::__invalid);
        assert_eq!(YulIntrinsicOp::from(i).is_terminator(), expected);
    }
}

#[test]
fn operator_texts_are_distinct() {
    let yul: Vec<String> = all_intrinsics().into_iter().map(|(_, op)| op.to_string()).collect();
    for (i, a) in yul.iter().enumerate() {
        for (j, b) in yul.iter().enumerate() {
            assert_eq!(a == b, i == j);
        }
    }
    let bins = [
        BinOp::Add, BinOp::Sub, BinOp::Mul, BinOp::Div, BinOp::Mod, BinOp::Pow, BinOp::Shl,
        BinOp::Shr, BinOp::BitOr, BinOp::BitXor, BinOp::BitAnd, BinOp::LogicalAnd,
        BinOp::LogicalOr, BinOp::Eq, BinOp::Ne, BinOp::Ge, BinOp::Gt, BinOp::Le, BinOp::Lt,
    ];
    for a in bins {
        for b in bins {
            assert_eq!(a.to_string() == b.to_string(), a == b);
        }
    }
}

#[test]
fn terminator_depends_on_kind_only() {
    let v = values(2);
    let b = blocks(2);
    let other = SourceInfo { span: Span { start: 40, end: 41 }, id: NodeId(1) };
    let kinds = vec![
        InstKind::Jump { dest: b[1] },
        InstKind::Branch { cond: v[0], then_: b[0], else_: b[1] },
        InstKind::YulIntrinsic { op: YulIntrinsicOp::Selfdestruct, args: vec![v[1]] },
        InstKind::YulIntrinsic { op: YulIntrinsicOp::Mload, args: vec![v[0]] },
        InstKind::Call { func: FunctionId(3), args: vec![v[0], v[1]], call_type: CallType::Internal },
        InstKind::Binary { op: BinOp::Lt, lhs: v[0], rhs: v[1] },
    ];
    for kind in kinds {
        let a = Inst::new(kind.clone(), source());
        let c = Inst::new(kind, other);
        assert_eq!(a.is_terminator(), c.is_terminator());
        assert_eq!(a.clone().is_terminator(), a.is_terminator());
        assert_eq!(a.clone().kind, a.kind);
    }
}
