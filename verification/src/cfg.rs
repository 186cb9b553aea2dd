//! The consumed control-flow-graph model: basic blocks are identified by a
//! totally ordered id, and hold statements plus one terminator, each of which
//! may reference storage locations (places).

use vstd::prelude::*;

verus! {

/// Identifier of a basic block, assigned by the frontend in emission order.
/// Ordering between two ids is used as a proxy for program order.
pub type BasicBlockId = u32;

/// A half-open range of byte positions in the analyzed source.
#[derive(Clone, Copy, PartialEq, Eq, Structural, Debug)]
pub struct SourceSpan {
    pub lo: u32,
    pub hi: u32,
}

/// One step of a field or index path inside a place.
#[derive(Clone, Copy, PartialEq, Eq, Structural, Debug)]
pub enum ProjectionElem {
    Field(u32),
    Index(u32),
}

/// A storage location: a base variable plus an optional projection path.
#[derive(Clone, PartialEq, Eq, Debug)]
pub struct Place {
    pub base: u32,
    pub projection: Vec<ProjectionElem>,
}

/// Two places denote the same tracked location iff their base variables are
/// equal; projections are deliberately ignored (a documented
/// over-approximation, kept in this one function so it can be tightened
/// without touching the ordering logic).
pub open spec fn same_location_spec(a: Place, b: Place) -> bool {
    a.base == b.base
}

/// Executable form of [`same_location_spec`].
pub fn same_location(a: &Place, b: &Place) -> (r: bool)
    ensures
        r == same_location_spec(*a, *b),
{
    a.base == b.base
}

/// An operand of a statement or assertion: a reference to a place, or an
/// immediate value.
#[derive(Clone, PartialEq, Eq, Debug)]
pub enum Operand {
    Copy(Place),
    Move(Place),
    Constant(u64),
}

/// The right-hand side of an assignment.
#[derive(Clone, PartialEq, Eq, Debug)]
pub enum Expr {
    Use(Operand),
    Sub(Operand, Operand),
}

/// A non-terminating instruction of a basic block.
#[derive(Clone, PartialEq, Eq, Debug)]
pub enum Statement {
    Assign(Place, Expr),
    Nop,
}

/// The kind of a runtime assertion terminator. `OverflowingSubtract` models
/// the guard inserted around a checked subtraction; its operand is the left
/// side of the subtraction.
#[derive(Clone, PartialEq, Eq, Debug)]
pub enum AssertKind {
    OverflowingSubtract(Operand),
    Other,
}

/// The control-transferring instruction ending a basic block.
#[derive(Clone, PartialEq, Eq, Debug)]
pub enum Terminator {
    Call { callee: String, args: Vec<Operand>, destination: Option<Place> },
    Assert { kind: AssertKind, span: SourceSpan },
    Return,
}

/// One retained item of a basic block: either a statement or the block's
/// terminator.
#[derive(Clone, PartialEq, Eq, Debug)]
pub enum BlockStatement {
    Statement(Statement),
    TerminatorKind(Terminator),
}

} // verus!
