//! The instructions of CASM.

use vstd::prelude::*;

use crate::bigint::BigInt;
use crate::hints::Hint;
use crate::operand::{CellRef, DerefOrImmediate, ResOperand};

verus! {

/// `ap += operand`.
#[derive(Debug, PartialEq, Eq)]
pub struct AddApInstruction<I = BigInt> {
    pub operand: ResOperand<I>,
}

/// `a = b`.
#[derive(Debug, PartialEq, Eq)]
pub struct AssertEqInstruction<I = BigInt> {
    pub a: CellRef,
    pub b: ResOperand<I>,
}

/// `call rel target` or `call abs target`.
#[derive(Debug, PartialEq, Eq)]
pub struct CallInstruction<I = BigInt> {
    pub target: DerefOrImmediate<I>,
    pub relative: bool,
}

/// `jmp rel jump_offset if condition != 0`.
#[derive(Debug, PartialEq, Eq)]
pub struct JnzInstruction<I = BigInt> {
    pub jump_offset: DerefOrImmediate<I>,
    pub condition: CellRef,
}

/// `jmp rel target` or `jmp abs target`.
#[derive(Debug, PartialEq, Eq)]
pub struct JumpInstruction<I = BigInt> {
    pub target: DerefOrImmediate<I>,
    pub relative: bool,
}

/// `ret`.
#[derive(Debug, PartialEq, Eq)]
pub struct RetInstruction {}

/// What an instruction does.
#[derive(Debug, PartialEq, Eq)]
pub enum InstructionBody<I = BigInt> {
    AddAp(AddApInstruction<I>),
    AssertEq(AssertEqInstruction<I>),
    Call(CallInstruction<I>),
    Jnz(JnzInstruction<I>),
    Jump(JumpInstruction<I>),
    Ret(RetInstruction),
}

/// An instruction: what it does, whether it also increments the allocation pointer, and the hints
/// that precede it.
#[derive(Debug, PartialEq, Eq)]
pub struct Instruction {
    pub body: InstructionBody,
    pub inc_ap: bool,
    pub hints: Vec<Hint>,
}

/// The view of an instruction.
#[verifier::ext_equal]
pub struct InstructionView {
    pub body: InstructionBody<int>,
    pub inc_ap: bool,
    pub hints: Seq<Hint>,
}

impl View for InstructionBody {
    type V = InstructionBody<int>;

    open spec fn view(&self) -> InstructionBody<int> {
        match self {
            InstructionBody::AddAp(inst) => InstructionBody::AddAp(
                AddApInstruction { operand: inst.operand@ },
            ),
            InstructionBody::AssertEq(inst) => InstructionBody::AssertEq(
                AssertEqInstruction { a: inst.a, b: inst.b@ },
            ),
            InstructionBody::Call(inst) => InstructionBody::Call(
                CallInstruction { target: inst.target@, relative: inst.relative },
            ),
            InstructionBody::Jnz(inst) => InstructionBody::Jnz(
                JnzInstruction { jump_offset: inst.jump_offset@, condition: inst.condition },
            ),
            InstructionBody::Jump(inst) => InstructionBody::Jump(
                JumpInstruction { target: inst.target@, relative: inst.relative },
            ),
            InstructionBody::Ret(_) => InstructionBody::Ret(RetInstruction {  }),
        }
    }
}

impl View for Instruction {
    type V = InstructionView;

    open spec fn view(&self) -> InstructionView {
        InstructionView { body: self.body@, inc_ap: self.inc_ap, hints: self.hints@ }
    }
}

impl<I> ResOperand<I> {
    /// The number of code cells that the operand takes besides the instruction itself.
    pub open spec fn immediate_size(self) -> nat {
        match self {
            ResOperand::Deref(_) => 0,
            ResOperand::DoubleDeref(_, _) => 0,
            ResOperand::Immediate(_) => 1,
            ResOperand::BinOp(bin_op) => bin_op.b.immediate_size(),
        }
    }
}

impl<I> InstructionBody<I> {
    /// The number of code cells of the instruction: one, and one more where it has an immediate.
    pub open spec fn size(self) -> nat {
        1 + match self {
            InstructionBody::AddAp(inst) => inst.operand.immediate_size(),
            InstructionBody::AssertEq(inst) => inst.b.immediate_size(),
            InstructionBody::Call(inst) => inst.target.immediate_size(),
            InstructionBody::Jnz(inst) => inst.jump_offset.immediate_size(),
            InstructionBody::Jump(inst) => inst.target.immediate_size(),
            InstructionBody::Ret(_) => 0,
        }
    }
}

impl InstructionBody<int> {
    /// The constant that a jump or a call goes by: how far away its target is.
    pub open spec fn jump_distance(self) -> Option<int> {
        match self {
            InstructionBody::Call(CallInstruction {
                target: DerefOrImmediate::Immediate(distance),
                ..
            }) => Some(distance),
            InstructionBody::Jnz(JnzInstruction {
                jump_offset: DerefOrImmediate::Immediate(distance),
                ..
            }) => Some(distance),
            InstructionBody::Jump(JumpInstruction {
                target: DerefOrImmediate::Immediate(distance),
                ..
            }) => Some(distance),
            _ => None,
        }
    }

    /// The jump or call whose target is `distance` further away.
    pub open spec fn moved_target(self, distance: int) -> Self {
        match self {
            InstructionBody::Call(CallInstruction {
                target: DerefOrImmediate::Immediate(old),
                relative,
            }) => InstructionBody::Call(
                CallInstruction { target: DerefOrImmediate::Immediate(old + distance), relative },
            ),
            InstructionBody::Jnz(JnzInstruction {
                jump_offset: DerefOrImmediate::Immediate(old),
                condition,
            }) => InstructionBody::Jnz(
                JnzInstruction {
                    jump_offset: DerefOrImmediate::Immediate(old + distance),
                    condition,
                },
            ),
            InstructionBody::Jump(JumpInstruction {
                target: DerefOrImmediate::Immediate(old),
                relative,
            }) => InstructionBody::Jump(
                JumpInstruction { target: DerefOrImmediate::Immediate(old + distance), relative },
            ),
            _ => self,
        }
    }
}

impl DerefOrImmediate {
    /// The number of code cells that the operand takes besides the instruction itself.
    fn extra_cells(&self) -> (res: usize)
        ensures
            res == self@.immediate_size(),
    {
        match self {
            DerefOrImmediate::Deref(_) => 0,
            DerefOrImmediate::Immediate(_) => 1,
        }
    }
}

impl ResOperand {
    /// The number of code cells that the operand takes besides the instruction itself.
    fn extra_cells(&self) -> (res: usize)
        ensures
            res == self@.immediate_size(),
    {
        match self {
            ResOperand::Deref(_) => 0,
            ResOperand::DoubleDeref(_, _) => 0,
            ResOperand::Immediate(_) => 1,
            ResOperand::BinOp(bin_op) => bin_op.b.extra_cells(),
        }
    }
}

impl InstructionBody {
    /// The number of code cells of the instruction.
    pub fn op_size(&self) -> (res: usize)
        ensures
            res == self@.size(),
    {
        1 + match self {
            InstructionBody::AddAp(inst) => inst.operand.extra_cells(),
            InstructionBody::AssertEq(inst) => inst.b.extra_cells(),
            InstructionBody::Call(inst) => inst.target.extra_cells(),
            InstructionBody::Jnz(inst) => inst.jump_offset.extra_cells(),
            InstructionBody::Jump(inst) => inst.target.extra_cells(),
            InstructionBody::Ret(_) => 0,
        }
    }

    /// Moves the target of a jump or a call by `distance`.
    pub fn move_target(self, distance: i128) -> (res: Self)
        ensures
            res@ == self@.moved_target(distance as int),
    {
        match self {
            InstructionBody::Call(CallInstruction {
                target: DerefOrImmediate::Immediate(old),
                relative,
            }) => InstructionBody::Call(
                CallInstruction {
                    target: DerefOrImmediate::Immediate(old.plus(distance)),
                    relative,
                },
            ),
            InstructionBody::Jnz(JnzInstruction {
                jump_offset: DerefOrImmediate::Immediate(old),
                condition,
            }) => InstructionBody::Jnz(
                JnzInstruction {
                    jump_offset: DerefOrImmediate::Immediate(old.plus(distance)),
                    condition,
                },
            ),
            InstructionBody::Jump(JumpInstruction {
                target: DerefOrImmediate::Immediate(old),
                relative,
            }) => InstructionBody::Jump(
                JumpInstruction {
                    target: DerefOrImmediate::Immediate(old.plus(distance)),
                    relative,
                },
            ),
            other => other,
        }
    }
}

} // verus!
