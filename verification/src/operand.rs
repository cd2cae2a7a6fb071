//! The operands of CASM instructions.

use vstd::prelude::*;

use crate::bigint::BigInt;

verus! {

/// The register that a cell is addressed by.
#[derive(Copy, Clone, Debug, PartialEq, Eq, Hash, Structural)]
pub enum Register {
    /// The allocation pointer.
    AP,
    /// The frame pointer.
    FP,
}

/// A memory cell, `[register + offset]`.
#[derive(Copy, Clone, Debug, PartialEq, Eq, Hash, Structural)]
pub struct CellRef {
    pub register: Register,
    pub offset: i16,
}

impl CellRef {
    /// Whether the cell can still be addressed once the allocation pointer has grown by `ap_change`.
    pub open spec fn can_apply_ap_change(self, ap_change: int) -> bool {
        self.register == Register::AP ==> ap_change <= i16::MAX && self.offset - ap_change
            >= i16::MIN
    }

    /// How the same cell is addressed once the allocation pointer has grown by `ap_change`.
    pub open spec fn ap_changed(self, ap_change: int) -> CellRef {
        match self.register {
            Register::AP => CellRef {
                register: Register::AP,
                offset: (self.offset - ap_change) as i16,
            },
            Register::FP => self,
        }
    }

    /// The cell as it is addressed once the allocation pointer has grown by `ap_change`, if its
    /// offset can be held.
    pub fn apply_known_ap_change(self, ap_change: usize) -> (res: Option<CellRef>)
        ensures
            res == (if self.can_apply_ap_change(ap_change as int) {
                Some(self.ap_changed(ap_change as int))
            } else {
                None
            }),
    {
        match self.register {
            Register::AP => {
                if ap_change > 0x7fff {
                    None
                } else {
                    match self.offset.checked_sub(ap_change as i16) {
                        Some(offset) => Some(CellRef { register: Register::AP, offset }),
                        None => None,
                    }
                }
            },
            Register::FP => Some(self),
        }
    }
}

/// A memory cell or a constant.
///
/// The type of the constants is a parameter so that the view of an operand is the same type over
/// the mathematical integers.
#[derive(Debug, PartialEq, Eq)]
pub enum DerefOrImmediate<I = BigInt> {
    Deref(CellRef),
    Immediate(I),
}

impl View for DerefOrImmediate {
    type V = DerefOrImmediate<int>;

    open spec fn view(&self) -> DerefOrImmediate<int> {
        match self {
            DerefOrImmediate::Deref(cell) => DerefOrImmediate::Deref(*cell),
            DerefOrImmediate::Immediate(imm) => DerefOrImmediate::Immediate(imm@),
        }
    }
}

impl Clone for DerefOrImmediate {
    fn clone(&self) -> (res: Self)
        ensures
            res@ == self@,
    {
        match self {
            DerefOrImmediate::Deref(cell) => DerefOrImmediate::Deref(*cell),
            DerefOrImmediate::Immediate(imm) => DerefOrImmediate::Immediate(imm.clone()),
        }
    }
}

impl<I> DerefOrImmediate<I> {
    /// Whether the operand can still be addressed once the allocation pointer has grown.
    pub open spec fn can_apply_ap_change(self, ap_change: int) -> bool {
        match self {
            DerefOrImmediate::Deref(cell) => cell.can_apply_ap_change(ap_change),
            DerefOrImmediate::Immediate(_) => true,
        }
    }

    /// How the same operand is addressed once the allocation pointer has grown by `ap_change`.
    pub open spec fn ap_changed(self, ap_change: int) -> Self {
        match self {
            DerefOrImmediate::Deref(cell) => DerefOrImmediate::Deref(cell.ap_changed(ap_change)),
            DerefOrImmediate::Immediate(_) => self,
        }
    }

    /// The number of code cells that the operand takes besides the instruction itself.
    pub open spec fn immediate_size(self) -> nat {
        match self {
            DerefOrImmediate::Deref(_) => 0,
            DerefOrImmediate::Immediate(_) => 1,
        }
    }
}

impl DerefOrImmediate {
    /// The operand as it is addressed once the allocation pointer has grown by `ap_change`, if its
    /// offset can be held.
    pub fn apply_known_ap_change(self, ap_change: usize) -> (res: Option<Self>)
        ensures
            res is Some <==> self@.can_apply_ap_change(ap_change as int),
            res matches Some(changed) ==> changed@ == self@.ap_changed(ap_change as int),
    {
        match self {
            DerefOrImmediate::Deref(cell) => match cell.apply_known_ap_change(ap_change) {
                Some(cell) => Some(DerefOrImmediate::Deref(cell)),
                None => None,
            },
            DerefOrImmediate::Immediate(imm) => Some(DerefOrImmediate::Immediate(imm)),
        }
    }

    /// Whether two operands are the same.
    pub fn equals(&self, other: &Self) -> (res: bool)
        ensures
            res == (self@ == other@),
    {
        match (self, other) {
            (DerefOrImmediate::Deref(cell), DerefOrImmediate::Deref(other)) => *cell == *other,
            (DerefOrImmediate::Immediate(imm), DerefOrImmediate::Immediate(other)) => imm.equals(
                other,
            ),
            _ => false,
        }
    }
}

/// The operations that an instruction can compute.
#[derive(Copy, Clone, Debug, PartialEq, Eq, Hash, Structural)]
pub enum Operation {
    Add,
    Mul,
}

/// The right hand side `a op b` of an instruction.
#[derive(Debug, PartialEq, Eq)]
pub struct BinOpOperand<I = BigInt> {
    pub op: Operation,
    pub a: CellRef,
    pub b: DerefOrImmediate<I>,
}

impl View for BinOpOperand {
    type V = BinOpOperand<int>;

    open spec fn view(&self) -> BinOpOperand<int> {
        BinOpOperand { op: self.op, a: self.a, b: self.b@ }
    }
}

impl Clone for BinOpOperand {
    fn clone(&self) -> (res: Self)
        ensures
            res@ == self@,
    {
        BinOpOperand { op: self.op, a: self.a, b: self.b.clone() }
    }
}

/// The right hand side of an instruction.
#[derive(Debug, PartialEq, Eq)]
pub enum ResOperand<I = BigInt> {
    /// `[cell]`.
    Deref(CellRef),
    /// `[[cell] + offset]`.
    DoubleDeref(CellRef, i16),
    /// A constant.
    Immediate(I),
    /// `[a] + b` or `[a] * b`.
    BinOp(BinOpOperand<I>),
}

impl View for ResOperand {
    type V = ResOperand<int>;

    open spec fn view(&self) -> ResOperand<int> {
        match self {
            ResOperand::Deref(cell) => ResOperand::Deref(*cell),
            ResOperand::DoubleDeref(cell, offset) => ResOperand::DoubleDeref(*cell, *offset),
            ResOperand::Immediate(imm) => ResOperand::Immediate(imm@),
            ResOperand::BinOp(bin_op) => ResOperand::BinOp(bin_op@),
        }
    }
}

impl Clone for ResOperand {
    fn clone(&self) -> (res: Self)
        ensures
            res@ == self@,
    {
        match self {
            ResOperand::Deref(cell) => ResOperand::Deref(*cell),
            ResOperand::DoubleDeref(cell, offset) => ResOperand::DoubleDeref(*cell, *offset),
            ResOperand::Immediate(imm) => ResOperand::Immediate(imm.clone()),
            ResOperand::BinOp(bin_op) => ResOperand::BinOp(bin_op.clone()),
        }
    }
}

} // verus!
