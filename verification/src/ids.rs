//! Identifiers that instructions carry: arena ids of values and basic blocks,
//! interned ids of types, functions and contracts, and source positions.

use vstd::prelude::*;

verus! {

/// An arena id, handed out by an `id_arena::Arena`; instructions carry ids of
/// values and basic blocks without looking inside them.
#[verifier::external_type_specification]
#[verifier::external_body]
#[verifier::reject_recursive_types(T)]
pub struct ExArenaId<T>(id_arena::Id<T>);

/// `Clone` of an arena id: the source's `clone` returns `*self`, so the copy
/// is the same id.
pub assume_specification<T>[ <id_arena::Id<T> as Clone>::clone ](id: &id_arena::Id<T>) -> (r: id_arena::Id<T>)
    ensures
        r == *id,
;

/// A value of a function body, as instructions refer to it.
pub struct Value {}

/// A basic block of a function body; control flow jumps between blocks.
pub struct BasicBlock {}

/// The id of a value in the function's value arena.
pub type ValueId = id_arena::Id<Value>;

/// The id of a basic block in the function's block arena.
pub type BasicBlockId = id_arena::Id<BasicBlock>;

/// An interned type.
#[derive(Debug, Clone, Copy, PartialEq, Eq, Hash)]
pub struct TypeId(pub u32);

/// An interned function.
#[derive(Debug, Clone, Copy, PartialEq, Eq, Hash)]
pub struct FunctionId(pub u32);

/// An interned contract, as the analyzer hands it out.
#[derive(Debug, Clone, Copy, PartialEq, Eq, Hash)]
pub struct ContractId(pub u32);

/// A byte range of the source text.
#[derive(Debug, Clone, Copy, PartialEq, Eq, Hash)]
pub struct Span {
    pub start: usize,
    pub end: usize,
}

/// The id of a syntax node.
#[derive(Debug, Clone, Copy, PartialEq, Eq, Hash)]
pub struct NodeId(pub u32);

/// Where an instruction comes from in the source.
#[derive(Debug, Clone, Copy, PartialEq, Eq, Hash)]
pub struct SourceInfo {
    pub span: Span,
    pub id: NodeId,
}

} // verus!
