//! What cell expressions and instructions mean on a machine.

use vstd::prelude::*;

use crate::cell_expression::{CellExpression, CellOperator};
use crate::instructions::{AddApInstruction, InstructionBody, InstructionView};
use crate::operand::{CellRef, DerefOrImmediate, Operation, Register, ResOperand};

verus! {

/// A machine: its memory and its registers. All numbers are taken modulo `modulus`.
pub struct Machine {
    pub modulus: int,
    pub memory: spec_fn(int) -> int,
    pub ap: int,
    pub fp: int,
}

impl Machine {
    /// Whether the memory holds numbers modulo `modulus`.
    pub open spec fn wf(self) -> bool {
        &&& self.modulus > 1
        &&& forall|address: int| self.is_number(#[trigger] (self.memory)(address))
    }

    /// Whether `value` is a number modulo `modulus`.
    pub open spec fn is_number(self, value: int) -> bool {
        0 <= value < self.modulus
    }

    /// The machine with another AP.
    pub open spec fn with_ap(self, ap: int) -> Machine {
        Machine { ap, ..self }
    }

    /// The machine once AP has grown by `ap_change`.
    pub open spec fn advanced(self, ap_change: int) -> Machine {
        self.with_ap(self.ap + ap_change)
    }

    /// The machine in the first step of a function that is called here: the call has stored the
    /// frame pointer and the return address, and the function begins with both registers after
    /// them.
    pub open spec fn called(self) -> Machine {
        Machine { ap: self.ap + 2, fp: self.ap + 2, ..self }
    }

    /// What the memory holds at `address`.
    pub open spec fn at(self, address: int) -> int {
        (self.memory)(address % self.modulus)
    }

    /// What the register holds.
    pub open spec fn register(self, register: Register) -> int {
        match register {
            Register::AP => self.ap,
            Register::FP => self.fp,
        }
    }

    /// What the cell holds.
    pub open spec fn cell(self, cell: CellRef) -> int {
        self.at(self.register(cell.register) + cell.offset)
    }

    /// What the cell holds, or the constant.
    pub open spec fn cell_or_imm(self, operand: DerefOrImmediate<int>) -> int {
        match operand {
            DerefOrImmediate::Deref(cell) => self.cell(cell),
            DerefOrImmediate::Immediate(imm) => imm % self.modulus,
        }
    }

    /// Whether `value` is `a op b`. A quotient is a number that gives `a` when multiplied by `b`.
    pub open spec fn computes(self, op: CellOperator, a: int, b: int, value: int) -> bool {
        match op {
            CellOperator::Add => value == (a + b) % self.modulus,
            CellOperator::Sub => value == (a - b) % self.modulus,
            CellOperator::Mul => value == (a * b) % self.modulus,
            CellOperator::Div => a == (value * b) % self.modulus,
        }
    }

    /// Whether the expression has the value `value`.
    pub open spec fn has_value(self, expression: CellExpression<int>, value: int) -> bool {
        &&& self.is_number(value)
        &&& match expression {
            CellExpression::Deref(cell) => value == self.cell(cell),
            CellExpression::DoubleDeref(cell, offset) => value == self.at(self.cell(cell) + offset),
            CellExpression::Immediate(imm) => value == imm % self.modulus,
            CellExpression::BinOp { op, a, b } => self.computes(
                op,
                self.cell(a),
                self.cell_or_imm(b),
                value,
            ),
        }
    }

    /// The value of the right hand side of an instruction.
    pub open spec fn operand(self, operand: ResOperand<int>) -> int {
        match operand {
            ResOperand::Deref(cell) => self.cell(cell),
            ResOperand::DoubleDeref(cell, offset) => self.at(self.cell(cell) + offset),
            ResOperand::Immediate(imm) => imm % self.modulus,
            ResOperand::BinOp(bin_op) => match bin_op.op {
                Operation::Add => (self.cell(bin_op.a) + self.cell_or_imm(bin_op.b)) % self.modulus,
                Operation::Mul => (self.cell(bin_op.a) * self.cell_or_imm(bin_op.b)) % self.modulus,
            },
        }
    }

    /// Whether the instruction is an assertion that holds.
    pub open spec fn asserts(self, body: InstructionBody<int>) -> bool {
        body matches InstructionBody::AssertEq(inst) && self.cell(inst.a) == self.operand(inst.b)
    }
}

impl InstructionView {
    /// By how much the instruction increases AP, if it is no call.
    pub open spec fn ap_increase(self) -> int {
        (match self.body {
            InstructionBody::AddAp(AddApInstruction { operand: ResOperand::Immediate(size) }) => {
                size
            },
            _ => 0,
        }) + if self.inc_ap {
            1int
        } else {
            0
        }
    }
}

} // verus!
