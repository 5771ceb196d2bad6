//! The analyzer's builtin intrinsics: the Yul operations that Fe source can
//! call by name, written with two leading underscores.

use vstd::prelude::*;

verus! {

/// An intrinsic as the analyzer names it in source.
#[allow(non_camel_case_types)]
#[derive(Debug, Clone, Copy, PartialEq, Eq, Hash, Structural)]
pub enum Intrinsic {
    __stop,
    __add,
    __sub,
    __mul,
    __div,
    __sdiv,
    __mod,
    __smod,
    __exp,
    __not,
    __lt,
    __gt,
    __slt,
    __sgt,
    __eq,
    __iszero,
    __and,
    __or,
    __xor,
    __byte,
    __shl,
    __shr,
    __sar,
    __addmod,
    __mulmod,
    __signextend,
    __keccak256,
    __pc,
    __pop,
    __mload,
    __mstore,
    __mstore8,
    __sload,
    __sstore,
    __msize,
    __gas,
    __address,
    __balance,
    __selfbalance,
    __caller,
    __callvalue,
    __calldataload,
    __calldatasize,
    __calldatacopy,
    __codesize,
    __codecopy,
    __extcodesize,
    __extcodecopy,
    __returndatasize,
    __returndatacopy,
    __extcodehash,
    __create,
    __create2,
    __call,
    __callcode,
    __delegatecall,
    __staticcall,
    __return,
    __revert,
    __selfdestruct,
    __invalid,
    __log0,
    __log1,
    __log2,
    __log3,
    __log4,
    __chainid,
    __basefee,
    __origin,
    __gasprice,
    __blockhash,
    __coinbase,
    __timestamp,
    __number,
    __difficulty,
    __gaslimit,
}

impl Intrinsic {
    /// The name by which source code calls the intrinsic.
    pub open spec fn name(self) -> Seq<char> {
        match self {
            Intrinsic::__stop => "__stop"@,
            Intrinsic::__add => "__add"@,
            Intrinsic::__sub => "__sub"@,
            Intrinsic::__mul => "__mul"@,
            Intrinsic::__div => "__div"@,
            Intrinsic::__sdiv => "__sdiv"@,
            Intrinsic::__mod => "__mod"@,
            Intrinsic::__smod => "__smod"@,
            Intrinsic::__exp => "__exp"@,
            Intrinsic::__not => "__not"@,
            Intrinsic::__lt => "__lt"@,
            Intrinsic::__gt => "__gt"@,
            Intrinsic::__slt => "__slt"@,
            Intrinsic::__sgt => "__sgt"@,
            Intrinsic::__eq => "__eq"@,
            Intrinsic::__iszero => "__iszero"@,
            Intrinsic::__and => "__and"@,
            Intrinsic::__or => "__or"@,
            Intrinsic::__xor => "__xor"@,
            Intrinsic::__byte => "__byte"@,
            Intrinsic::__shl => "__shl"@,
            Intrinsic::__shr => "__shr"@,
            Intrinsic::__sar => "__sar"@,
            Intrinsic::__addmod => "__addmod"@,
            Intrinsic::__mulmod => "__mulmod"@,
            Intrinsic::__signextend => "__signextend"@,
            Intrinsic::__keccak256 => "__keccak256"@,
            Intrinsic::__pc => "__pc"@,
            Intrinsic::__pop => "__pop"@,
            Intrinsic::__mload => "__mload"@,
            Intrinsic::__mstore => "__mstore"@,
            Intrinsic::__mstore8 => "__mstore8"@,
            Intrinsic::__sload => "__sload"@,
            Intrinsic::__sstore => "__sstore"@,
            Intrinsic::__msize => "__msize"@,
            Intrinsic::__gas => "__gas"@,
            Intrinsic::__address => "__address"@,
            Intrinsic::__balance => "__balance"@,
            Intrinsic::__selfbalance => "__selfbalance"@,
            Intrinsic::__caller => "__caller"@,
            Intrinsic::__callvalue => "__callvalue"@,
            Intrinsic::__calldataload => "__calldataload"@,
            Intrinsic::__calldatasize => "__calldatasize"@,
            Intrinsic::__calldatacopy => "__calldatacopy"@,
            Intrinsic::__codesize => "__codesize"@,
            Intrinsic::__codecopy => "__codecopy"@,
            Intrinsic::__extcodesize => "__extcodesize"@,
            Intrinsic::__extcodecopy => "__extcodecopy"@,
            Intrinsic::__returndatasize => "__returndatasize"@,
            Intrinsic::__returndatacopy => "__returndatacopy"@,
            Intrinsic::__extcodehash => "__extcodehash"@,
            Intrinsic::__create => "__create"@,
            Intrinsic::__create2 => "__create2"@,
            Intrinsic::__call => "__call"@,
            Intrinsic::__callcode => "__callcode"@,
            Intrinsic::__delegatecall => "__delegatecall"@,
            Intrinsic::__staticcall => "__staticcall"@,
            Intrinsic::__return => "__return"@,
            Intrinsic::__revert => "__revert"@,
            Intrinsic::__selfdestruct => "__selfdestruct"@,
            Intrinsic::__invalid => "__invalid"@,
            Intrinsic::__log0 => "__log0"@,
            Intrinsic::__log1 => "__log1"@,
            Intrinsic::__log2 => "__log2"@,
            Intrinsic::__log3 => "__log3"@,
            Intrinsic::__log4 => "__log4"@,
            Intrinsic::__chainid => "__chainid"@,
            Intrinsic::__basefee => "__basefee"@,
            Intrinsic::__origin => "__origin"@,
            Intrinsic::__gasprice => "__gasprice"@,
            Intrinsic::__blockhash => "__blockhash"@,
            Intrinsic::__coinbase => "__coinbase"@,
            Intrinsic::__timestamp => "__timestamp"@,
            Intrinsic::__number => "__number"@,
            Intrinsic::__difficulty => "__difficulty"@,
            Intrinsic::__gaslimit => "__gaslimit"@,
        }
    }

    /// The name by which source code calls the intrinsic.
    pub fn as_str(&self) -> (s: &'static str)
        ensures
            s@ == self.name(),
    {
        match self {
            Intrinsic::__stop => "__stop",
            Intrinsic::__add => "__add",
            Intrinsic::__sub => "__sub",
            Intrinsic::__mul => "__mul",
            Intrinsic::__div => "__div",
            Intrinsic::__sdiv => "__sdiv",
            Intrinsic::__mod => "__mod",
            Intrinsic::__smod => "__smod",
            Intrinsic::__exp => "__exp",
            Intrinsic::__not => "__not",
            Intrinsic::__lt => "__lt",
            Intrinsic::__gt => "__gt",
            Intrinsic::__slt => "__slt",
            Intrinsic::__sgt => "__sgt",
            Intrinsic::__eq => "__eq",
            Intrinsic::__iszero => "__iszero",
            Intrinsic::__and => "__and",
            Intrinsic::__or => "__or",
            Intrinsic::__xor => "__xor",
            Intrinsic::__byte => "__byte",
            Intrinsic::__shl => "__shl",
            Intrinsic::__shr => "__shr",
            Intrinsic::__sar => "__sar",
            Intrinsic::__addmod => "__addmod",
            Intrinsic::__mulmod => "__mulmod",
            Intrinsic::__signextend => "__signextend",
            Intrinsic::__keccak256 => "__keccak256",
            Intrinsic::__pc => "__pc",
            Intrinsic::__pop => "__pop",
            Intrinsic::__mload => "__mload",
            Intrinsic::__mstore => "__mstore",
            Intrinsic::__mstore8 => "__mstore8",
            Intrinsic::__sload => "__sload",
            Intrinsic::__sstore => "__sstore",
            Intrinsic::__msize => "__msize",
            Intrinsic::__gas => "__gas",
            Intrinsic::__address => "__address",
            Intrinsic::__balance => "__balance",
            Intrinsic::__selfbalance => "__selfbalance",
            Intrinsic::__caller => "__caller",
            Intrinsic::__callvalue => "__callvalue",
            Intrinsic::__calldataload => "__calldataload",
            Intrinsic::__calldatasize => "__calldatasize",
            Intrinsic::__calldatacopy => "__calldatacopy",
            Intrinsic::__codesize => "__codesize",
            Intrinsic::__codecopy => "__codecopy",
            Intrinsic::__extcodesize => "__extcodesize",
            Intrinsic::__extcodecopy => "__extcodecopy",
            Intrinsic::__returndatasize => "__returndatasize",
            Intrinsic::__returndatacopy => "__returndatacopy",
            Intrinsic::__extcodehash => "__extcodehash",
            Intrinsic::__create => "__create",
            Intrinsic::__create2 => "__create2",
            Intrinsic::__call => "__call",
            Intrinsic::__callcode => "__callcode",
            Intrinsic::__delegatecall => "__delegatecall",
            Intrinsic::__staticcall => "__staticcall",
            Intrinsic::__return => "__return",
            Intrinsic::__revert => "__revert",
            Intrinsic::__selfdestruct => "__selfdestruct",
            Intrinsic::__invalid => "__invalid",
            Intrinsic::__log0 => "__log0",
            Intrinsic::__log1 => "__log1",
            Intrinsic::__log2 => "__log2",
            Intrinsic::__log3 => "__log3",
            Intrinsic::__log4 => "__log4",
            Intrinsic::__chainid => "__chainid",
            Intrinsic::__basefee => "__basefee",
            Intrinsic::__origin => "__origin",
            Intrinsic::__gasprice => "__gasprice",
            Intrinsic::__blockhash => "__blockhash",
            Intrinsic::__coinbase => "__coinbase",
            Intrinsic::__timestamp => "__timestamp",
            Intrinsic::__number => "__number",
            Intrinsic::__difficulty => "__difficulty",
            Intrinsic::__gaslimit => "__gaslimit",
        }
    }
}

} // verus!
