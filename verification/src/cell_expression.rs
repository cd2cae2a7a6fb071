//! The values that the variables of the builder stand for.

use vstd::prelude::*;

use crate::bigint::BigInt;
use crate::operand::{BinOpOperand, CellRef, DerefOrImmediate, Operation, ResOperand};

verus! {

/// The operations of a cell expression.
#[derive(Copy, Clone, Debug, PartialEq, Eq, Hash, Structural)]
pub enum CellOperator {
    Add,
    Sub,
    Mul,
    Div,
}

/// An expression over memory cells and constants.
///
/// The type of the constants is a parameter so that the view of an expression is the same type over
/// the mathematical integers.
#[derive(Debug, PartialEq, Eq)]
pub enum CellExpression<I = BigInt> {
    /// `[cell]`.
    Deref(CellRef),
    /// `[[cell] + offset]`.
    DoubleDeref(CellRef, i16),
    /// A constant.
    Immediate(I),
    /// `[a] op b`.
    BinOp { op: CellOperator, a: CellRef, b: DerefOrImmediate<I> },
}

impl View for CellExpression {
    type V = CellExpression<int>;

    open spec fn view(&self) -> CellExpression<int> {
        match self {
            CellExpression::Deref(cell) => CellExpression::Deref(*cell),
            CellExpression::DoubleDeref(cell, offset) => CellExpression::DoubleDeref(
                *cell,
                *offset,
            ),
            CellExpression::Immediate(imm) => CellExpression::Immediate(imm@),
            CellExpression::BinOp { op, a, b } => CellExpression::BinOp { op: *op, a: *a, b: b@ },
        }
    }
}

impl Clone for CellExpression {
    fn clone(&self) -> (res: Self)
        ensures
            res@ == self@,
    {
        match self {
            CellExpression::Deref(cell) => CellExpression::Deref(*cell),
            CellExpression::DoubleDeref(cell, offset) => CellExpression::DoubleDeref(
                *cell,
                *offset,
            ),
            CellExpression::Immediate(imm) => CellExpression::Immediate(imm.clone()),
            CellExpression::BinOp { op, a, b } => CellExpression::BinOp {
                op: *op,
                a: *a,
                b: b.clone(),
            },
        }
    }
}

impl<I> CellExpression<I> {
    /// Whether the cells of the expression can still be addressed once the allocation pointer has
    /// grown by `ap_change`.
    pub open spec fn can_apply_ap_change(self, ap_change: int) -> bool {
        match self {
            CellExpression::Deref(cell) => cell.can_apply_ap_change(ap_change),
            CellExpression::DoubleDeref(cell, _) => cell.can_apply_ap_change(ap_change),
            CellExpression::Immediate(_) => true,
            CellExpression::BinOp { op: _, a, b } => {
                &&& a.can_apply_ap_change(ap_change)
                &&& b.can_apply_ap_change(ap_change)
            },
        }
    }

    /// How the same expression is written once the allocation pointer has grown by `ap_change`.
    pub open spec fn ap_changed(self, ap_change: int) -> Self {
        match self {
            CellExpression::Deref(cell) => CellExpression::Deref(cell.ap_changed(ap_change)),
            CellExpression::DoubleDeref(cell, offset) => CellExpression::DoubleDeref(
                cell.ap_changed(ap_change),
                offset,
            ),
            CellExpression::Immediate(_) => self,
            CellExpression::BinOp { op, a, b } => CellExpression::BinOp {
                op,
                a: a.ap_changed(ap_change),
                b: b.ap_changed(ap_change),
            },
        }
    }

    /// The expression as the right hand side of an instruction: a difference or a quotient is none.
    pub open spec fn as_res_operand(self) -> Option<ResOperand<I>> {
        match self {
            CellExpression::Deref(cell) => Some(ResOperand::Deref(cell)),
            CellExpression::DoubleDeref(cell, offset) => Some(
                ResOperand::DoubleDeref(cell, offset),
            ),
            CellExpression::Immediate(imm) => Some(ResOperand::Immediate(imm)),
            CellExpression::BinOp { op, a, b } => match op {
                CellOperator::Add => Some(
                    ResOperand::BinOp(BinOpOperand { op: Operation::Add, a, b }),
                ),
                CellOperator::Mul => Some(
                    ResOperand::BinOp(BinOpOperand { op: Operation::Mul, a, b }),
                ),
                CellOperator::Sub | CellOperator::Div => None,
            },
        }
    }
}

impl CellExpression {
    /// The expression as it is written once the allocation pointer has grown by `ap_change`, if its
    /// offsets can be held.
    pub fn apply_known_ap_change(self, ap_change: usize) -> (res: Option<Self>)
        ensures
            res is Some <==> self@.can_apply_ap_change(ap_change as int),
            res matches Some(changed) ==> changed@ == self@.ap_changed(ap_change as int),
    {
        match self {
            CellExpression::Deref(cell) => match cell.apply_known_ap_change(ap_change) {
                Some(cell) => Some(CellExpression::Deref(cell)),
                None => None,
            },
            CellExpression::DoubleDeref(cell, offset) => match cell.apply_known_ap_change(
                ap_change,
            ) {
                Some(cell) => Some(CellExpression::DoubleDeref(cell, offset)),
                None => None,
            },
            CellExpression::Immediate(imm) => Some(CellExpression::Immediate(imm)),
            CellExpression::BinOp { op, a, b } => match (
                a.apply_known_ap_change(ap_change),
                b.apply_known_ap_change(ap_change),
            ) {
                (Some(a), Some(b)) => Some(CellExpression::BinOp { op, a, b }),
                _ => None,
            },
        }
    }

    /// The expression as it is written once the allocation pointer has grown by `ap_change`.
    pub fn unchecked_apply_known_ap_change(self, ap_change: usize) -> (res: Self)
        requires
            self@.can_apply_ap_change(ap_change as int),
        ensures
            res@ == self@.ap_changed(ap_change as int),
    {
        self.apply_known_ap_change(ap_change).unwrap()
    }

    /// The expression as the right hand side of an instruction, unless it is a difference or a
    /// quotient.
    pub fn to_res_operand(self) -> (res: Option<ResOperand>)
        ensures
            res is Some <==> self@.as_res_operand() is Some,
            res matches Some(operand) ==> Some(operand@) == self@.as_res_operand(),
    {
        match self {
            CellExpression::Deref(cell) => Some(ResOperand::Deref(cell)),
            CellExpression::DoubleDeref(cell, offset) => Some(
                ResOperand::DoubleDeref(cell, offset),
            ),
            CellExpression::Immediate(imm) => Some(ResOperand::Immediate(imm)),
            CellExpression::BinOp { op, a, b } => match op {
                CellOperator::Add => Some(
                    ResOperand::BinOp(BinOpOperand { op: Operation::Add, a, b }),
                ),
                CellOperator::Mul => Some(
                    ResOperand::BinOp(BinOpOperand { op: Operation::Mul, a, b }),
                ),
                CellOperator::Sub | CellOperator::Div => None,
            },
        }
    }

    /// Whether two expressions are the same.
    pub fn equals(&self, other: &Self) -> (res: bool)
        ensures
            res == (self@ == other@),
    {
        match (self, other) {
            (CellExpression::Deref(cell), CellExpression::Deref(other)) => *cell == *other,
            (
                CellExpression::DoubleDeref(cell, offset),
                CellExpression::DoubleDeref(other, other_offset),
            ) => *cell == *other && *offset == *other_offset,
            (CellExpression::Immediate(imm), CellExpression::Immediate(other)) => imm.equals(other),
            (
                CellExpression::BinOp { op, a, b },
                CellExpression::BinOp { op: other_op, a: other_a, b: other_b },
            ) => *op == *other_op && *a == *other_a && b.equals(other_b),
            _ => false,
        }
    }
}

} // verus!
