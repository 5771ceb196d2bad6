//! The instruction set.

use vstd::prelude::*;
use id_arena::Id;
use crate::builtins::Intrinsic;
use crate::ids::{BasicBlockId, ContractId, FunctionId, SourceInfo, TypeId, ValueId};

verus! {

/// The id of an instruction in the function's instruction arena.
pub type InstId = Id<Inst>;

/// An instruction together with where it comes from.
#[derive(Debug, PartialEq, Eq, Hash)]
pub struct Inst {
    pub kind: InstKind,
    pub source: SourceInfo,
}

/// What an instruction does.
#[derive(Debug, PartialEq, Eq, Hash)]
pub enum InstKind {
    /// This is not a real instruction, just used to tag a position where a
    /// local is declared.
    Declare { local: ValueId },
    Assign { lhs: ValueId, rhs: ValueId },
    /// Unary instruction.
    Unary { op: UnOp, value: ValueId },
    /// Binary instruction.
    Binary { op: BinOp, lhs: ValueId, rhs: ValueId },
    Cast { value: ValueId, to: TypeId },
    /// Constructs aggregate value, i.e. struct, tuple and array.
    AggregateConstruct { ty: TypeId, args: Vec<ValueId> },
    /// Access to aggregate fields or elements: `foo.y`, where `y` is the
    /// second field of `foo`, is `AggregateAccess(foo, [1])`.
    AggregateAccess { value: ValueId, index: ValueId },
    MapAccess { value: ValueId, key: ValueId },
    Call { func: FunctionId, args: Vec<ValueId>, call_type: CallType },
    /// Unconditional jump instruction.
    Jump { dest: BasicBlockId },
    /// Conditional branching instruction.
    Branch { cond: ValueId, then_: BasicBlockId, else_: BasicBlockId },
    Revert { arg: ValueId },
    Emit { arg: ValueId },
    Return { arg: ValueId },
    Keccak256 { arg: ValueId },
    Clone { arg: ValueId },
    ToMem { arg: ValueId },
    AbiEncode { arg: ValueId },
    Create { value: ValueId, contract: ContractId },
    Create2 { value: ValueId, salt: ValueId, contract: ContractId },
    YulIntrinsic { op: YulIntrinsicOp, args: Vec<ValueId> },
}

impl InstKind {
    /// The two kinds are the same instruction: the same variant with the same
    /// operands, argument lists compared by their contents.
    pub open spec fn same_as(self, other: InstKind) -> bool {
        match (self, other) {
            (
                InstKind::AggregateConstruct { ty: t1, args: a1 },
                InstKind::AggregateConstruct { ty: t2, args: a2 },
            ) => t1 == t2 && a1@ == a2@,
            (
                InstKind::Call { func: f1, args: a1, call_type: c1 },
                InstKind::Call { func: f2, args: a2, call_type: c2 },
            ) => f1 == f2 && a1@ == a2@ && c1 == c2,
            (
                InstKind::YulIntrinsic { op: o1, args: a1 },
                InstKind::YulIntrinsic { op: o2, args: a2 },
            ) => o1 == o2 && a1@ == a2@,
            _ => self == other,
        }
    }
}

impl Clone for InstKind {
    fn clone(&self) -> (r: Self)
        ensures
            r.same_as(*self),
    {
        match self {
            InstKind::Declare { local } => InstKind::Declare { local: *local },
            InstKind::Assign { lhs, rhs } => InstKind::Assign { lhs: *lhs, rhs: *rhs },
            InstKind::Unary { op, value } => InstKind::Unary { op: *op, value: *value },
            InstKind::Binary { op, lhs, rhs } => InstKind::Binary { op: *op, lhs: *lhs, rhs: *rhs },
            InstKind::Cast { value, to } => InstKind::Cast { value: *value, to: *to },
            InstKind::AggregateConstruct { ty, args } => InstKind::AggregateConstruct { ty: *ty, args: args.clone() },
            InstKind::AggregateAccess { value, index } => InstKind::AggregateAccess { value: *value, index: *index },
            InstKind::MapAccess { value, key } => InstKind::MapAccess { value: *value, key: *key },
            InstKind::Call { func, args, call_type } => InstKind::Call { func: *func, args: args.clone(), call_type: *call_type },
            InstKind::Jump { dest } => InstKind::Jump { dest: *dest },
            InstKind::Branch { cond, then_, else_ } => InstKind::Branch { cond: *cond, then_: *then_, else_: *else_ },
            InstKind::Revert { arg } => InstKind::Revert { arg: *arg },
            InstKind::Emit { arg } => InstKind::Emit { arg: *arg },
            InstKind::Return { arg } => InstKind::Return { arg: *arg },
            InstKind::Keccak256 { arg } => InstKind::Keccak256 { arg: *arg },
            InstKind::Clone { arg } => InstKind::Clone { arg: *arg },
            InstKind::ToMem { arg } => InstKind::ToMem { arg: *arg },
            InstKind::AbiEncode { arg } => InstKind::AbiEncode { arg: *arg },
            InstKind::Create { value, contract } => InstKind::Create { value: *value, contract: *contract },
            InstKind::Create2 { value, salt, contract } => InstKind::Create2 { value: *value, salt: *salt, contract: *contract },
            InstKind::YulIntrinsic { op, args } => InstKind::YulIntrinsic { op: *op, args: args.clone() },
        }
    }
}

impl Clone for Inst {
    fn clone(&self) -> (r: Self)
        ensures
            r.kind.same_as(self.kind),
            r.source == self.source,
    {
        Inst { kind: self.kind.clone(), source: self.source }
    }
}

/// Where control goes after an instruction.
pub enum BranchInfo {
    NotBranch,
    Jump(BasicBlockId),
    Branch((BasicBlockId, BasicBlockId)),
}

impl InstKind {
    /// Control leaves the block after an instruction of this kind: it jumps,
    /// branches, reverts, returns, or calls a terminating builtin.
    pub open spec fn ends_block(self) -> bool {
        match self {
            InstKind::Jump { .. } | InstKind::Branch { .. } | InstKind::Revert { .. }
            | InstKind::Return { .. } => true,
            InstKind::YulIntrinsic { op, .. } => op.is_terminator(),
            _ => false,
        }
    }

    /// The successors that an instruction of this kind names.
    pub open spec fn branch_targets(self) -> BranchInfo {
        match self {
            InstKind::Jump { dest } => BranchInfo::Jump(dest),
            InstKind::Branch { then_, else_, .. } => BranchInfo::Branch((then_, else_)),
            _ => BranchInfo::NotBranch,
        }
    }
}

impl Inst {
    pub fn new(kind: InstKind, source: SourceInfo) -> (r: Self)
        ensures
            r.kind == kind,
            r.source == source,
    {
        Self { kind, source }
    }

    pub fn unary(op: UnOp, value: ValueId, source: SourceInfo) -> (r: Self)
        ensures
            r.kind == (InstKind::Unary { op, value }),
            r.source == source,
    {
        let kind = InstKind::Unary { op, value };
        Self::new(kind, source)
    }

    pub fn binary(op: BinOp, lhs: ValueId, rhs: ValueId, source: SourceInfo) -> (r: Self)
        ensures
            r.kind == (InstKind::Binary { op, lhs, rhs }),
            r.source == source,
    {
        let kind = InstKind::Binary { op, lhs, rhs };
        Self::new(kind, source)
    }

    pub fn intrinsic(op: YulIntrinsicOp, args: Vec<ValueId>, source: SourceInfo) -> (r: Self)
        ensures
            r.kind == (InstKind::YulIntrinsic { op, args }),
            r.source == source,
    {
        let kind = InstKind::YulIntrinsic { op, args };
        Self::new(kind, source)
    }

    /// Whether the instruction ends its basic block.
    pub fn is_terminator(&self) -> (r: bool)
        ensures
            r == self.kind.ends_block(),
    {
        match self.kind {
            InstKind::Jump { .. } | InstKind::Branch { .. } | InstKind::Revert { .. }
            | InstKind::Return { .. } => true,
            InstKind::YulIntrinsic { op, .. } => op.is_terminator(),
            _ => false,
        }
    }

    /// The blocks that control may go to after the instruction.
    pub fn branch_info(&self) -> (r: BranchInfo)
        ensures
            r == self.kind.branch_targets(),
    {
        match self.kind {
            InstKind::Jump { dest } => BranchInfo::Jump(dest),
            InstKind::Branch { then_, else_, .. } => BranchInfo::Branch((then_, else_)),
            _ => BranchInfo::NotBranch,
        }
    }
}

/// Unary operators.
#[derive(Debug, Clone, Copy, PartialEq, Eq, Hash, Structural)]
pub enum UnOp {
    /// `not` operator for logical inversion.
    Not,
    /// `-` operator for negation.
    Neg,
    /// `~` operator for bitwise inversion.
    Inv,
}

impl UnOp {
    /// How the operator is written.
    pub open spec fn text(self) -> Seq<char> {
        match self {
            UnOp::Not => "not"@,
            UnOp::Neg => "-"@,
            UnOp::Inv => "~"@,
        }
    }

    /// How the operator is written.
    pub fn to_string(&self) -> (s: String)
        ensures
            s@ == self.text(),
    {
        let t: &str = match self {
            UnOp::Not => "not",
            UnOp::Neg => "-",
            UnOp::Inv => "~",
        };
        t.to_owned()
    }
}

/// Binary operators.
#[derive(Debug, Clone, Copy, PartialEq, Eq, Hash, Structural)]
pub enum BinOp {
    Add,
    Sub,
    Mul,
    Div,
    Mod,
    Pow,
    Shl,
    Shr,
    BitOr,
    BitXor,
    BitAnd,
    LogicalAnd,
    LogicalOr,
    Eq,
    Ne,
    Ge,
    Gt,
    Le,
    Lt,
}

impl BinOp {
    /// How the operator is written.
    pub open spec fn text(self) -> Seq<char> {
        match self {
            BinOp::Add => "+"@,
            BinOp::Sub => "-"@,
            BinOp::Mul => "*"@,
            BinOp::Div => "/"@,
            BinOp::Mod => "%"@,
            BinOp::Pow => "**"@,
            BinOp::Shl => "<<"@,
            BinOp::Shr => ">>"@,
            BinOp::BitOr => "|"@,
            BinOp::BitXor => "^"@,
            BinOp::BitAnd => "&"@,
            BinOp::LogicalAnd => "and"@,
            BinOp::LogicalOr => "or"@,
            BinOp::Eq => "=="@,
            BinOp::Ne => "!="@,
            BinOp::Ge => ">="@,
            BinOp::Gt => ">"@,
            BinOp::Le => "<="@,
            BinOp::Lt => "<"@,
        }
    }

    /// How the operator is written.
    pub fn to_string(&self) -> (s: String)
        ensures
            s@ == self.text(),
    {
        let t: &str = match self {
            BinOp::Add => "+",
            BinOp::Sub => "-",
            BinOp::Mul => "*",
            BinOp::Div => "/",
            BinOp::Mod => "%",
            BinOp::Pow => "**",
            BinOp::Shl => "<<",
            BinOp::Shr => ">>",
            BinOp::BitOr => "|",
            BinOp::BitXor => "^",
            BinOp::BitAnd => "&",
            BinOp::LogicalAnd => "and",
            BinOp::LogicalOr => "or",
            BinOp::Eq => "==",
            BinOp::Ne => "!=",
            BinOp::Ge => ">=",
            BinOp::Gt => ">",
            BinOp::Le => "<=",
            BinOp::Lt => "<",
        };
        t.to_owned()
    }
}

/// Whether a call stays inside the contract or goes through a message call.
#[derive(Debug, Clone, Copy, PartialEq, Eq, Hash, Structural)]
pub enum CallType {
    Internal,
    External,
}

impl CallType {
    /// How the call type is written.
    pub open spec fn text(self) -> Seq<char> {
        match self {
            CallType::Internal => "internal"@,
            CallType::External => "external"@,
        }
    }

    /// How the call type is written.
    pub fn to_string(&self) -> (s: String)
        ensures
            s@ == self.text(),
    {
        let t: &str = match self {
            CallType::Internal => "internal",
            CallType::External => "external",
        };
        t.to_owned()
    }
}

/// The Yul builtins that an instruction can invoke directly.
#[derive(Debug, Clone, Copy, PartialEq, Eq, Hash, Structural)]
pub enum YulIntrinsicOp {
    Stop,
    Add,
    Sub,
    Mul,
    Div,
    Sdiv,
    Mod,
    Smod,
    Exp,
    Not,
    Lt,
    Gt,
    Slt,
    Sgt,
    Eq,
    Iszero,
    And,
    Or,
    Xor,
    Byte,
    Shl,
    Shr,
    Sar,
    Addmod,
    Mulmod,
    Signextend,
    Keccak256,
    Pc,
    Pop,
    Mload,
    Mstore,
    Mstore8,
    Sload,
    Sstore,
    Msize,
    Gas,
    Address,
    Balance,
    Selfbalance,
    Caller,
    Callvalue,
    Calldataload,
    Calldatasize,
    Calldatacopy,
    Codesize,
    Codecopy,
    Extcodesize,
    Extcodecopy,
    Returndatasize,
    Returndatacopy,
    Extcodehash,
    Create,
    Create2,
    Call,
    Callcode,
    Delegatecall,
    Staticcall,
    Return,
    Revert,
    Selfdestruct,
    Invalid,
    Log0,
    Log1,
    Log2,
    Log3,
    Log4,
    Chainid,
    Basefee,
    Origin,
    Gasprice,
    Blockhash,
    Coinbase,
    Timestamp,
    Number,
    Difficulty,
    Gaslimit,
}

impl YulIntrinsicOp {
    /// Whether the builtin ends execution of the current block: it returns,
    /// reverts, self-destructs or is the invalid instruction.
    #[verifier::allow_in_spec]
    pub fn is_terminator(self) -> bool
        returns
            self is Return || self is Revert || self is Selfdestruct || self is Invalid,
    {
        match self {
            YulIntrinsicOp::Return | YulIntrinsicOp::Revert | YulIntrinsicOp::Selfdestruct
            | YulIntrinsicOp::Invalid => true,
            _ => false,
        }
    }

    /// How the builtin is written: its name in lower case after two underscores.
    pub open spec fn text(self) -> Seq<char> {
        match self {
            YulIntrinsicOp::Stop => "__stop"@,
            YulIntrinsicOp::Add => "__add"@,
            YulIntrinsicOp::Sub => "__sub"@,
            YulIntrinsicOp::Mul => "__mul"@,
            YulIntrinsicOp::Div => "__div"@,
            YulIntrinsicOp::Sdiv => "__sdiv"@,
            YulIntrinsicOp::Mod => "__mod"@,
            YulIntrinsicOp::Smod => "__smod"@,
            YulIntrinsicOp::Exp => "__exp"@,
            YulIntrinsicOp::Not => "__not"@,
            YulIntrinsicOp::Lt => "__lt"@,
            YulIntrinsicOp::Gt => "__gt"@,
            YulIntrinsicOp::Slt => "__slt"@,
            YulIntrinsicOp::Sgt => "__sgt"@,
            YulIntrinsicOp::Eq => "__eq"@,
            YulIntrinsicOp::Iszero => "__iszero"@,
            YulIntrinsicOp::And => "__and"@,
            YulIntrinsicOp::Or => "__or"@,
            YulIntrinsicOp::Xor => "__xor"@,
            YulIntrinsicOp::Byte => "__byte"@,
            YulIntrinsicOp::Shl => "__shl"@,
            YulIntrinsicOp::Shr => "__shr"@,
            YulIntrinsicOp::Sar => "__sar"@,
            YulIntrinsicOp::Addmod => "__addmod"@,
            YulIntrinsicOp::Mulmod => "__mulmod"@,
            YulIntrinsicOp::Signextend => "__signextend"@,
            YulIntrinsicOp::Keccak256 => "__keccak256"@,
            YulIntrinsicOp::Pc => "__pc"@,
            YulIntrinsicOp::Pop => "__pop"@,
            YulIntrinsicOp::Mload => "__mload"@,
            YulIntrinsicOp::Mstore => "__mstore"@,
            YulIntrinsicOp::Mstore8 => "__mstore8"@,
            YulIntrinsicOp::Sload => "__sload"@,
            YulIntrinsicOp::Sstore => "__sstore"@,
            YulIntrinsicOp::Msize => "__msize"@,
            YulIntrinsicOp::Gas => "__gas"@,
            YulIntrinsicOp::Address => "__address"@,
            YulIntrinsicOp::Balance => "__balance"@,
            YulIntrinsicOp::Selfbalance => "__selfbalance"@,
            YulIntrinsicOp::Caller => "__caller"@,
            YulIntrinsicOp::Callvalue => "__callvalue"@,
            YulIntrinsicOp::Calldataload => "__calldataload"@,
            YulIntrinsicOp::Calldatasize => "__calldatasize"@,
            YulIntrinsicOp::Calldatacopy => "__calldatacopy"@,
            YulIntrinsicOp::Codesize => "__codesize"@,
            YulIntrinsicOp::Codecopy => "__codecopy"@,
            YulIntrinsicOp::Extcodesize => "__extcodesize"@,
            YulIntrinsicOp::Extcodecopy => "__extcodecopy"@,
            YulIntrinsicOp::Returndatasize => "__returndatasize"@,
            YulIntrinsicOp::Returndatacopy => "__returndatacopy"@,
            YulIntrinsicOp::Extcodehash => "__extcodehash"@,
            YulIntrinsicOp::Create => "__create"@,
            YulIntrinsicOp::Create2 => "__create2"@,
            YulIntrinsicOp::Call => "__call"@,
            YulIntrinsicOp::Callcode => "__callcode"@,
            YulIntrinsicOp::Delegatecall => "__delegatecall"@,
            YulIntrinsicOp::Staticcall => "__staticcall"@,
            YulIntrinsicOp::Return => "__return"@,
            YulIntrinsicOp::Revert => "__revert"@,
            YulIntrinsicOp::Selfdestruct => "__selfdestruct"@,
            YulIntrinsicOp::Invalid => "__invalid"@,
            YulIntrinsicOp::Log0 => "__log0"@,
            YulIntrinsicOp::Log1 => "__log1"@,
            YulIntrinsicOp::Log2 => "__log2"@,
            YulIntrinsicOp::Log3 => "__log3"@,
            YulIntrinsicOp::Log4 => "__log4"@,
            YulIntrinsicOp::Chainid => "__chainid"@,
            YulIntrinsicOp::Basefee => "__basefee"@,
            YulIntrinsicOp::Origin => "__origin"@,
            YulIntrinsicOp::Gasprice => "__gasprice"@,
            YulIntrinsicOp::Blockhash => "__blockhash"@,
            YulIntrinsicOp::Coinbase => "__coinbase"@,
            YulIntrinsicOp::Timestamp => "__timestamp"@,
            YulIntrinsicOp::Number => "__number"@,
            YulIntrinsicOp::Difficulty => "__difficulty"@,
            YulIntrinsicOp::Gaslimit => "__gaslimit"@,
        }
    }

    /// How the builtin is written.
    pub fn to_string(&self) -> (s: String)
        ensures
            s@ == self.text(),
    {
        let t: &str = match self {
            YulIntrinsicOp::Stop => "__stop",
            YulIntrinsicOp::Add => "__add",
            YulIntrinsicOp::Sub => "__sub",
            YulIntrinsicOp::Mul => "__mul",
            YulIntrinsicOp::Div => "__div",
            YulIntrinsicOp::Sdiv => "__sdiv",
            YulIntrinsicOp::Mod => "__mod",
            YulIntrinsicOp::Smod => "__smod",
            YulIntrinsicOp::Exp => "__exp",
            YulIntrinsicOp::Not => "__not",
            YulIntrinsicOp::Lt => "__lt",
            YulIntrinsicOp::Gt => "__gt",
            YulIntrinsicOp::Slt => "__slt",
            YulIntrinsicOp::Sgt => "__sgt",
            YulIntrinsicOp::Eq => "__eq",
            YulIntrinsicOp::Iszero => "__iszero",
            YulIntrinsicOp::And => "__and",
            YulIntrinsicOp::Or => "__or",
            YulIntrinsicOp::Xor => "__xor",
            YulIntrinsicOp::Byte => "__byte",
            YulIntrinsicOp::Shl => "__shl",
            YulIntrinsicOp::Shr => "__shr",
            YulIntrinsicOp::Sar => "__sar",
            YulIntrinsicOp::Addmod => "__addmod",
            YulIntrinsicOp::Mulmod => "__mulmod",
            YulIntrinsicOp::Signextend => "__signextend",
            YulIntrinsicOp::Keccak256 => "__keccak256",
            YulIntrinsicOp::Pc => "__pc",
            YulIntrinsicOp::Pop => "__pop",
            YulIntrinsicOp::Mload => "__mload",
            YulIntrinsicOp::Mstore => "__mstore",
            YulIntrinsicOp::Mstore8 => "__mstore8",
            YulIntrinsicOp::Sload => "__sload",
            YulIntrinsicOp::Sstore => "__sstore",
            YulIntrinsicOp::Msize => "__msize",
            YulIntrinsicOp::Gas => "__gas",
            YulIntrinsicOp::Address => "__address",
            YulIntrinsicOp::Balance => "__balance",
            YulIntrinsicOp::Selfbalance => "__selfbalance",
            YulIntrinsicOp::Caller => "__caller",
            YulIntrinsicOp::Callvalue => "__callvalue",
            YulIntrinsicOp::Calldataload => "__calldataload",
            YulIntrinsicOp::Calldatasize => "__calldatasize",
            YulIntrinsicOp::Calldatacopy => "__calldatacopy",
            YulIntrinsicOp::Codesize => "__codesize",
            YulIntrinsicOp::Codecopy => "__codecopy",
            YulIntrinsicOp::Extcodesize => "__extcodesize",
            YulIntrinsicOp::Extcodecopy => "__extcodecopy",
            YulIntrinsicOp::Returndatasize => "__returndatasize",
            YulIntrinsicOp::Returndatacopy => "__returndatacopy",
            YulIntrinsicOp::Extcodehash => "__extcodehash",
            YulIntrinsicOp::Create => "__create",
            YulIntrinsicOp::Create2 => "__create2",
            YulIntrinsicOp::Call => "__call",
            YulIntrinsicOp::Callcode => "__callcode",
            YulIntrinsicOp::Delegatecall => "__delegatecall",
            YulIntrinsicOp::Staticcall => "__staticcall",
            YulIntrinsicOp::Return => "__return",
            YulIntrinsicOp::Revert => "__revert",
            YulIntrinsicOp::Selfdestruct => "__selfdestruct",
            YulIntrinsicOp::Invalid => "__invalid",
            YulIntrinsicOp::Log0 => "__log0",
            YulIntrinsicOp::Log1 => "__log1",
            YulIntrinsicOp::Log2 => "__log2",
            YulIntrinsicOp::Log3 => "__log3",
            YulIntrinsicOp::Log4 => "__log4",
            YulIntrinsicOp::Chainid => "__chainid",
            YulIntrinsicOp::Basefee => "__basefee",
            YulIntrinsicOp::Origin => "__origin",
            YulIntrinsicOp::Gasprice => "__gasprice",
            YulIntrinsicOp::Blockhash => "__blockhash",
            YulIntrinsicOp::Coinbase => "__coinbase",
            YulIntrinsicOp::Timestamp => "__timestamp",
            YulIntrinsicOp::Number => "__number",
            YulIntrinsicOp::Difficulty => "__difficulty",
            YulIntrinsicOp::Gaslimit => "__gaslimit",
        };
        t.to_owned()
    }
}

/// The Yul builtin that an analyzer intrinsic stands for.
pub open spec fn yul_op_of(val: Intrinsic) -> YulIntrinsicOp {
    match val {
        Intrinsic::__stop => YulIntrinsicOp::Stop,
        Intrinsic::__add => YulIntrinsicOp::Add,
        Intrinsic::__sub => YulIntrinsicOp::Sub,
        Intrinsic::__mul => YulIntrinsicOp::Mul,
        Intrinsic::__div => YulIntrinsicOp::Div,
        Intrinsic::__sdiv => YulIntrinsicOp::Sdiv,
        Intrinsic::__mod => YulIntrinsicOp::Mod,
        Intrinsic::__smod => YulIntrinsicOp::Smod,
        Intrinsic::__exp => YulIntrinsicOp::Exp,
        Intrinsic::__not => YulIntrinsicOp::Not,
        Intrinsic::__lt => YulIntrinsicOp::Lt,
        Intrinsic::__gt => YulIntrinsicOp::Gt,
        Intrinsic::__slt => YulIntrinsicOp::Slt,
        Intrinsic::__sgt => YulIntrinsicOp::Sgt,
        Intrinsic::__eq => YulIntrinsicOp::Eq,
        Intrinsic::__iszero => YulIntrinsicOp::Iszero,
        Intrinsic::__and => YulIntrinsicOp::And,
        Intrinsic::__or => YulIntrinsicOp::Or,
        Intrinsic::__xor => YulIntrinsicOp::Xor,
        Intrinsic::__byte => YulIntrinsicOp::Byte,
        Intrinsic::__shl => YulIntrinsicOp::Shl,
        Intrinsic::__shr => YulIntrinsicOp::Shr,
        Intrinsic::__sar => YulIntrinsicOp::Sar,
        Intrinsic::__addmod => YulIntrinsicOp::Addmod,
        Intrinsic::__mulmod => YulIntrinsicOp::Mulmod,
        Intrinsic::__signextend => YulIntrinsicOp::Signextend,
        Intrinsic::__keccak256 => YulIntrinsicOp::Keccak256,
        Intrinsic::__pc => YulIntrinsicOp::Pc,
        Intrinsic::__pop => YulIntrinsicOp::Pop,
        Intrinsic::__mload => YulIntrinsicOp::Mload,
        Intrinsic::__mstore => YulIntrinsicOp::Mstore,
        Intrinsic::__mstore8 => YulIntrinsicOp::Mstore8,
        Intrinsic::__sload => YulIntrinsicOp::Sload,
        Intrinsic::__sstore => YulIntrinsicOp::Sstore,
        Intrinsic::__msize => YulIntrinsicOp::Msize,
        Intrinsic::__gas => YulIntrinsicOp::Gas,
        Intrinsic::__address => YulIntrinsicOp::Address,
        Intrinsic::__balance => YulIntrinsicOp::Balance,
        Intrinsic::__selfbalance => YulIntrinsicOp::Selfbalance,
        Intrinsic::__caller => YulIntrinsicOp::Caller,
        Intrinsic::__callvalue => YulIntrinsicOp::Callvalue,
        Intrinsic::__calldataload => YulIntrinsicOp::Calldataload,
        Intrinsic::__calldatasize => YulIntrinsicOp::Calldatasize,
        Intrinsic::__calldatacopy => YulIntrinsicOp::Calldatacopy,
        Intrinsic::__codesize => YulIntrinsicOp::Codesize,
        Intrinsic::__codecopy => YulIntrinsicOp::Codecopy,
        Intrinsic::__extcodesize => YulIntrinsicOp::Extcodesize,
        Intrinsic::__extcodecopy => YulIntrinsicOp::Extcodecopy,
        Intrinsic::__returndatasize => YulIntrinsicOp::Returndatasize,
        Intrinsic::__returndatacopy => YulIntrinsicOp::Returndatacopy,
        Intrinsic::__extcodehash => YulIntrinsicOp::Extcodehash,
        Intrinsic::__create => YulIntrinsicOp::Create,
        Intrinsic::__create2 => YulIntrinsicOp::Create2,
        Intrinsic::__call => YulIntrinsicOp::Call,
        Intrinsic::__callcode => YulIntrinsicOp::Callcode,
        Intrinsic::__delegatecall => YulIntrinsicOp::Delegatecall,
        Intrinsic::__staticcall => YulIntrinsicOp::Staticcall,
        Intrinsic::__return => YulIntrinsicOp::Return,
        Intrinsic::__revert => YulIntrinsicOp::Revert,
        Intrinsic::__selfdestruct => YulIntrinsicOp::Selfdestruct,
        Intrinsic::__invalid => YulIntrinsicOp::Invalid,
        Intrinsic::__log0 => YulIntrinsicOp::Log0,
        Intrinsic::__log1 => YulIntrinsicOp::Log1,
        Intrinsic::__log2 => YulIntrinsicOp::Log2,
        Intrinsic::__log3 => YulIntrinsicOp::Log3,
        Intrinsic::__log4 => YulIntrinsicOp::Log4,
        Intrinsic::__chainid => YulIntrinsicOp::Chainid,
        Intrinsic::__basefee => YulIntrinsicOp::Basefee,
        Intrinsic::__origin => YulIntrinsicOp::Origin,
        Intrinsic::__gasprice => YulIntrinsicOp::Gasprice,
        Intrinsic::__blockhash => YulIntrinsicOp::Blockhash,
        Intrinsic::__coinbase => YulIntrinsicOp::Coinbase,
        Intrinsic::__timestamp => YulIntrinsicOp::Timestamp,
        Intrinsic::__number => YulIntrinsicOp::Number,
        Intrinsic::__difficulty => YulIntrinsicOp::Difficulty,
        Intrinsic::__gaslimit => YulIntrinsicOp::Gaslimit,
    }
}

impl From<Intrinsic> for YulIntrinsicOp {
    fn from(val: Intrinsic) -> (r: Self) {
        match val {
            Intrinsic::__stop => Self::Stop,
            Intrinsic::__add => Self::Add,
            Intrinsic::__sub => Self::Sub,
            Intrinsic::__mul => Self::Mul,
            Intrinsic::__div => Self::Div,
            Intrinsic::__sdiv => Self::Sdiv,
            Intrinsic::__mod => Self::Mod,
            Intrinsic::__smod => Self::Smod,
            Intrinsic::__exp => Self::Exp,
            Intrinsic::__not => Self::Not,
            Intrinsic::__lt => Self::Lt,
            Intrinsic::__gt => Self::Gt,
            Intrinsic::__slt => Self::Slt,
            Intrinsic::__sgt => Self::Sgt,
            Intrinsic::__eq => Self::Eq,
            Intrinsic::__iszero => Self::Iszero,
            Intrinsic::__and => Self::And,
            Intrinsic::__or => Self::Or,
            Intrinsic::__xor => Self::Xor,
            Intrinsic::__byte => Self::Byte,
            Intrinsic::__shl => Self::Shl,
            Intrinsic::__shr => Self::Shr,
            Intrinsic::__sar => Self::Sar,
            Intrinsic::__addmod => Self::Addmod,
            Intrinsic::__mulmod => Self::Mulmod,
            Intrinsic::__signextend => Self::Signextend,
            Intrinsic::__keccak256 => Self::Keccak256,
            Intrinsic::__pc => Self::Pc,
            Intrinsic::__pop => Self::Pop,
            Intrinsic::__mload => Self::Mload,
            Intrinsic::__mstore => Self::Mstore,
            Intrinsic::__mstore8 => Self::Mstore8,
            Intrinsic::__sload => Self::Sload,
            Intrinsic::__sstore => Self::Sstore,
            Intrinsic::__msize => Self::Msize,
            Intrinsic::__gas => Self::Gas,
            Intrinsic::__address => Self::Address,
            Intrinsic::__balance => Self::Balance,
            Intrinsic::__selfbalance => Self::Selfbalance,
            Intrinsic::__caller => Self::Caller,
            Intrinsic::__callvalue => Self::Callvalue,
            Intrinsic::__calldataload => Self::Calldataload,
            Intrinsic::__calldatasize => Self::Calldatasize,
            Intrinsic::__calldatacopy => Self::Calldatacopy,
            Intrinsic::__codesize => Self::Codesize,
            Intrinsic::__codecopy => Self::Codecopy,
            Intrinsic::__extcodesize => Self::Extcodesize,
            Intrinsic::__extcodecopy => Self::Extcodecopy,
            Intrinsic::__returndatasize => Self::Returndatasize,
            Intrinsic::__returndatacopy => Self::Returndatacopy,
            Intrinsic::__extcodehash => Self::Extcodehash,
            Intrinsic::__create => Self::Create,
            Intrinsic::__create2 => Self::Create2,
            Intrinsic::__call => Self::Call,
            Intrinsic::__callcode => Self::Callcode,
            Intrinsic::__delegatecall => Self::Delegatecall,
            Intrinsic::__staticcall => Self::Staticcall,
            Intrinsic::__return => Self::Return,
            Intrinsic::__revert => Self::Revert,
            Intrinsic::__selfdestruct => Self::Selfdestruct,
            Intrinsic::__invalid => Self::Invalid,
            Intrinsic::__log0 => Self::Log0,
            Intrinsic::__log1 => Self::Log1,
            Intrinsic::__log2 => Self::Log2,
            Intrinsic::__log3 => Self::Log3,
            Intrinsic::__log4 => Self::Log4,
            Intrinsic::__chainid => Self::Chainid,
            Intrinsic::__basefee => Self::Basefee,
            Intrinsic::__origin => Self::Origin,
            Intrinsic::__gasprice => Self::Gasprice,
            Intrinsic::__blockhash => Self::Blockhash,
            Intrinsic::__coinbase => Self::Coinbase,
            Intrinsic::__timestamp => Self::Timestamp,
            Intrinsic::__number => Self::Number,
            Intrinsic::__difficulty => Self::Difficulty,
            Intrinsic::__gaslimit => Self::Gaslimit,
        }
    }
}

impl vstd::std_specs::convert::FromSpecImpl<Intrinsic> for YulIntrinsicOp {
    open spec fn obeys_from_spec() -> bool {
        true
    }

    open spec fn from_spec(v: Intrinsic) -> Self {
        yul_op_of(v)
    }
}

/// The analyzer intrinsic that a Yul builtin comes from.
pub open spec fn intrinsic_of(op: YulIntrinsicOp) -> Intrinsic {
    match op {
        YulIntrinsicOp::Stop => Intrinsic::__stop,
        YulIntrinsicOp::Add => Intrinsic::__add,
        YulIntrinsicOp::Sub => Intrinsic::__sub,
        YulIntrinsicOp::Mul => Intrinsic::__mul,
        YulIntrinsicOp::Div => Intrinsic::__div,
        YulIntrinsicOp::Sdiv => Intrinsic::__sdiv,
        YulIntrinsicOp::Mod => Intrinsic::__mod,
        YulIntrinsicOp::Smod => Intrinsic::__smod,
        YulIntrinsicOp::Exp => Intrinsic::__exp,
        YulIntrinsicOp::Not => Intrinsic::__not,
        YulIntrinsicOp::Lt => Intrinsic::__lt,
        YulIntrinsicOp::Gt => Intrinsic::__gt,
        YulIntrinsicOp::Slt => Intrinsic::__slt,
        YulIntrinsicOp::Sgt => Intrinsic::__sgt,
        YulIntrinsicOp::Eq => Intrinsic::__eq,
        YulIntrinsicOp::Iszero => Intrinsic::__iszero,
        YulIntrinsicOp::And => Intrinsic::__and,
        YulIntrinsicOp::Or => Intrinsic::__or,
        YulIntrinsicOp::Xor => Intrinsic::__xor,
        YulIntrinsicOp::Byte => Intrinsic::__byte,
        YulIntrinsicOp::Shl => Intrinsic::__shl,
        YulIntrinsicOp::Shr => Intrinsic::__shr,
        YulIntrinsicOp::Sar => Intrinsic::__sar,
        YulIntrinsicOp::Addmod => Intrinsic::__addmod,
        YulIntrinsicOp::Mulmod => Intrinsic::__mulmod,
        YulIntrinsicOp::Signextend => Intrinsic::__signextend,
        YulIntrinsicOp::Keccak256 => Intrinsic::__keccak256,
        YulIntrinsicOp::Pc => Intrinsic::__pc,
        YulIntrinsicOp::Pop => Intrinsic::__pop,
        YulIntrinsicOp::Mload => Intrinsic::__mload,
        YulIntrinsicOp::Mstore => Intrinsic::__mstore,
        YulIntrinsicOp::Mstore8 => Intrinsic::__mstore8,
        YulIntrinsicOp::Sload => Intrinsic::__sload,
        YulIntrinsicOp::Sstore => Intrinsic::__sstore,
        YulIntrinsicOp::Msize => Intrinsic::__msize,
        YulIntrinsicOp::Gas => Intrinsic::__gas,
        YulIntrinsicOp::Address => Intrinsic::__address,
        YulIntrinsicOp::Balance => Intrinsic::__balance,
        YulIntrinsicOp::Selfbalance => Intrinsic::__selfbalance,
        YulIntrinsicOp::Caller => Intrinsic::__caller,
        YulIntrinsicOp::Callvalue => Intrinsic::__callvalue,
        YulIntrinsicOp::Calldataload => Intrinsic::__calldataload,
        YulIntrinsicOp::Calldatasize => Intrinsic::__calldatasize,
        YulIntrinsicOp::Calldatacopy => Intrinsic::__calldatacopy,
        YulIntrinsicOp::Codesize => Intrinsic::__codesize,
        YulIntrinsicOp::Codecopy => Intrinsic::__codecopy,
        YulIntrinsicOp::Extcodesize => Intrinsic::__extcodesize,
        YulIntrinsicOp::Extcodecopy => Intrinsic::__extcodecopy,
        YulIntrinsicOp::Returndatasize => Intrinsic::__returndatasize,
        YulIntrinsicOp::Returndatacopy => Intrinsic::__returndatacopy,
        YulIntrinsicOp::Extcodehash => Intrinsic::__extcodehash,
        YulIntrinsicOp::Create => Intrinsic::__create,
        YulIntrinsicOp::Create2 => Intrinsic::__create2,
        YulIntrinsicOp::Call => Intrinsic::__call,
        YulIntrinsicOp::Callcode => Intrinsic::__callcode,
        YulIntrinsicOp::Delegatecall => Intrinsic::__delegatecall,
        YulIntrinsicOp::Staticcall => Intrinsic::__staticcall,
        YulIntrinsicOp::Return => Intrinsic::__return,
        YulIntrinsicOp::Revert => Intrinsic::__revert,
        YulIntrinsicOp::Selfdestruct => Intrinsic::__selfdestruct,
        YulIntrinsicOp::Invalid => Intrinsic::__invalid,
        YulIntrinsicOp::Log0 => Intrinsic::__log0,
        YulIntrinsicOp::Log1 => Intrinsic::__log1,
        YulIntrinsicOp::Log2 => Intrinsic::__log2,
        YulIntrinsicOp::Log3 => Intrinsic::__log3,
        YulIntrinsicOp::Log4 => Intrinsic::__log4,
        YulIntrinsicOp::Chainid => Intrinsic::__chainid,
        YulIntrinsicOp::Basefee => Intrinsic::__basefee,
        YulIntrinsicOp::Origin => Intrinsic::__origin,
        YulIntrinsicOp::Gasprice => Intrinsic::__gasprice,
        YulIntrinsicOp::Blockhash => Intrinsic::__blockhash,
        YulIntrinsicOp::Coinbase => Intrinsic::__coinbase,
        YulIntrinsicOp::Timestamp => Intrinsic::__timestamp,
        YulIntrinsicOp::Number => Intrinsic::__number,
        YulIntrinsicOp::Difficulty => Intrinsic::__difficulty,
        YulIntrinsicOp::Gaslimit => Intrinsic::__gaslimit,
    }
}

/// Converting intrinsics to Yul builtins loses nothing and misses nothing:
/// every builtin comes from exactly one intrinsic.
pub proof fn lemma_intrinsic_conversion_bijective()
    ensures
        forall|i: Intrinsic| #[trigger] intrinsic_of(yul_op_of(i)) == i,
        forall|op: YulIntrinsicOp| #[trigger] yul_op_of(intrinsic_of(op)) == op,
        forall|i: Intrinsic, j: Intrinsic| #[trigger] yul_op_of(i) == #[trigger] yul_op_of(j) ==> i == j,
{
    assert forall|i: Intrinsic, j: Intrinsic| #[trigger] yul_op_of(i) == #[trigger] yul_op_of(j) implies i == j by {
        assert(intrinsic_of(yul_op_of(i)) == i);
        assert(intrinsic_of(yul_op_of(j)) == j);
    }
}

/// A converted intrinsic is written the way source code calls it.
pub proof fn lemma_converted_intrinsic_text(i: Intrinsic)
    ensures
        yul_op_of(i).text() == i.name(),
{
}

/// A converted intrinsic ends its block exactly when it returns, reverts,
/// self-destructs or is the invalid instruction.
pub proof fn lemma_converted_intrinsic_terminates(i: Intrinsic)
    ensures
        yul_op_of(i).is_terminator() <==> (i is __return || i is __revert || i is __selfdestruct
            || i is __invalid),
{
}

/// Every instruction that names a successor block ends its block.
pub proof fn lemma_branches_terminate(kind: InstKind)
    ensures
        !(kind.branch_targets() is NotBranch) ==> kind.ends_block(),
{
}

/// Unary and binary instructions fall through to the next instruction; an
/// intrinsic instruction never names a successor and ends its block exactly
/// when its builtin does.
pub proof fn lemma_operator_insts_fall_through(
    un: UnOp,
    bin: BinOp,
    yul: YulIntrinsicOp,
    value: ValueId,
    lhs: ValueId,
    rhs: ValueId,
    args: Vec<ValueId>,
)
    ensures
        !(InstKind::Unary { op: un, value }).ends_block(),
        (InstKind::Unary { op: un, value }).branch_targets() is NotBranch,
        !(InstKind::Binary { op: bin, lhs, rhs }).ends_block(),
        (InstKind::Binary { op: bin, lhs, rhs }).branch_targets() is NotBranch,
        (InstKind::YulIntrinsic { op: yul, args }).ends_block() == yul.is_terminator(),
        (InstKind::YulIntrinsic { op: yul, args }).branch_targets() is NotBranch,
{
}


/// Distinct binary operators are written differently.
pub proof fn lemma_bin_op_text_injective(a: BinOp, b: BinOp)
    ensures
        a.text() == b.text() ==> a == b,
{
    reveal_strlit("+");
    reveal_strlit("-");
    reveal_strlit("*");
    reveal_strlit("/");
    reveal_strlit("%");
    reveal_strlit("**");
    reveal_strlit("<<");
    reveal_strlit(">>");
    reveal_strlit("|");
    reveal_strlit("^");
    reveal_strlit("&");
    reveal_strlit("and");
    reveal_strlit("or");
    reveal_strlit("==");
    reveal_strlit("!=");
    reveal_strlit(">=");
    reveal_strlit(">");
    reveal_strlit("<=");
    reveal_strlit("<");
    if a.text() == b.text() {
        assert(a.text().len() == b.text().len());
        assert(a.text()[0] == b.text()[0]);
        if a.text().len() > 1 {
            assert(a.text()[1] == b.text()[1]);
        }
        if a.text().len() > 2 {
            assert(a.text()[2] == b.text()[2]);
        }
    }
}


/// Distinct Yul builtins are written differently.
pub proof fn lemma_yul_op_text_injective(a: YulIntrinsicOp, b: YulIntrinsicOp)
    ensures
        a.text() == b.text() ==> a == b,
{
    reveal_strlit("__stop");
    reveal_strlit("__add");
    reveal_strlit("__sub");
    reveal_strlit("__mul");
    reveal_strlit("__div");
    reveal_strlit("__sdiv");
    reveal_strlit("__mod");
    reveal_strlit("__smod");
    reveal_strlit("__exp");
    reveal_strlit("__not");
    reveal_strlit("__lt");
    reveal_strlit("__gt");
    reveal_strlit("__slt");
    reveal_strlit("__sgt");
    reveal_strlit("__eq");
    reveal_strlit("__iszero");
    reveal_strlit("__and");
    reveal_strlit("__or");
    reveal_strlit("__xor");
    reveal_strlit("__byte");
    reveal_strlit("__shl");
    reveal_strlit("__shr");
    reveal_strlit("__sar");
    reveal_strlit("__addmod");
    reveal_strlit("__mulmod");
    reveal_strlit("__signextend");
    reveal_strlit("__keccak256");
    reveal_strlit("__pc");
    reveal_strlit("__pop");
    reveal_strlit("__mload");
    reveal_strlit("__mstore");
    reveal_strlit("__mstore8");
    reveal_strlit("__sload");
    reveal_strlit("__sstore");
    reveal_strlit("__msize");
    reveal_strlit("__gas");
    reveal_strlit("__address");
    reveal_strlit("__balance");
    reveal_strlit("__selfbalance");
    reveal_strlit("__caller");
    reveal_strlit("__callvalue");
    reveal_strlit("__calldataload");
    reveal_strlit("__calldatasize");
    reveal_strlit("__calldatacopy");
    reveal_strlit("__codesize");
    reveal_strlit("__codecopy");
    reveal_strlit("__extcodesize");
    reveal_strlit("__extcodecopy");
    reveal_strlit("__returndatasize");
    reveal_strlit("__returndatacopy");
    reveal_strlit("__extcodehash");
    reveal_strlit("__create");
    reveal_strlit("__create2");
    reveal_strlit("__call");
    reveal_strlit("__callcode");
    reveal_strlit("__delegatecall");
    reveal_strlit("__staticcall");
    reveal_strlit("__return");
    reveal_strlit("__revert");
    reveal_strlit("__selfdestruct");
    reveal_strlit("__invalid");
    reveal_strlit("__log0");
    reveal_strlit("__log1");
    reveal_strlit("__log2");
    reveal_strlit("__log3");
    reveal_strlit("__log4");
    reveal_strlit("__chainid");
    reveal_strlit("__basefee");
    reveal_strlit("__origin");
    reveal_strlit("__gasprice");
    reveal_strlit("__blockhash");
    reveal_strlit("__coinbase");
    reveal_strlit("__timestamp");
    reveal_strlit("__number");
    reveal_strlit("__difficulty");
    reveal_strlit("__gaslimit");
    if a.text() == b.text() {
        assert(a.text().len() == b.text().len());
        if a.text().len() > 2 {
            assert(a.text()[2] == b.text()[2]);
        }
        if a.text().len() > 3 {
            assert(a.text()[3] == b.text()[3]);
        }
        if a.text().len() > 4 {
            assert(a.text()[4] == b.text()[4]);
        }
        if a.text().len() > 5 {
            assert(a.text()[5] == b.text()[5]);
        }
        if a.text().len() > 6 {
            assert(a.text()[6] == b.text()[6]);
        }
        if a.text().len() > 7 {
            assert(a.text()[7] == b.text()[7]);
        }
        if a.text().len() > 8 {
            assert(a.text()[8] == b.text()[8]);
        }
        if a.text().len() > 9 {
            assert(a.text()[9] == b.text()[9]);
        }
        if a.text().len() > 10 {
            assert(a.text()[10] == b.text()[10]);
        }
        if a.text().len() > 11 {
            assert(a.text()[11] == b.text()[11]);
        }
        if a.text().len() > 12 {
            assert(a.text()[12] == b.text()[12]);
        }
        if a.text().len() > 13 {
            assert(a.text()[13] == b.text()[13]);
        }
        if a.text().len() > 14 {
            assert(a.text()[14] == b.text()[14]);
        }
        if a.text().len() > 15 {
            assert(a.text()[15] == b.text()[15]);
        }
    }
}

/// Whether an instruction ends its block, and where control goes after it,
/// depend on its kind alone: the same instruction, a clone of it, or one
/// from another source position all agree.
pub proof fn lemma_control_depends_on_kind_only(a: InstKind, b: InstKind, s1: SourceInfo, s2: SourceInfo)
    ensures
        a.same_as(b) ==> {
            &&& (Inst { kind: a, source: s1 }).kind.ends_block() == (Inst { kind: b, source: s2 }).kind.ends_block()
            &&& (Inst { kind: a, source: s1 }).kind.branch_targets() == (Inst { kind: b, source: s2 }).kind.branch_targets()
        },
{
}

} // verus!
