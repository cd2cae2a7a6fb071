//! What the views of values say of them: all that there is in them.

use vstd::prelude::*;

use crate::aux_info::{
    strings_view, CasmBuilderAuxiliaryInfo, ExprDesc, LibfuncAlgTypeDesc, RetBranchDesc,
    StatementDesc, VarBaseDesc,
};
use crate::builder::{names_view, CasmBuildResult};
use crate::cell_expression::CellExpression;
use crate::hints::operands_view;
use crate::instructions::{Instruction, InstructionBody};
use crate::operand::{DerefOrImmediate, ResOperand};
use crate::state::{State, Var};

verus! {

/// Operands with the same view are the same, with the same constants.
pub proof fn law_operands_are_told_apart(a: DerefOrImmediate, b: DerefOrImmediate)
    requires
        a@ == b@,
    ensures
        match a {
            DerefOrImmediate::Deref(cell) => b matches DerefOrImmediate::Deref(other) && other
                == cell,
            DerefOrImmediate::Immediate(imm) => b matches DerefOrImmediate::Immediate(other)
                && other@ == imm@,
        },
        a is Deref <==> a@ is Deref,
        a matches DerefOrImmediate::Deref(cell) ==> a@->Deref_0 == cell,
        a matches DerefOrImmediate::Immediate(imm) ==> a@->Immediate_0 == imm@,
{
}

/// The view of an expression is of the same kind, with the same cells and constants.
pub proof fn law_expression_view(value: CellExpression)
    ensures
        match value {
            CellExpression::Deref(cell) => value@ matches CellExpression::Deref(other) && other
                == cell,
            CellExpression::DoubleDeref(cell, offset) => {
                &&& value@ matches CellExpression::DoubleDeref(other, place)
                &&& other == cell
                &&& place == offset
            },
            CellExpression::Immediate(imm) => value@ matches CellExpression::Immediate(other)
                && other == imm@,
            CellExpression::BinOp { op, a, b } => {
                &&& value@ matches CellExpression::BinOp { op: other, a: x, b: y }
                &&& other == op
                &&& x == a
                &&& y == b@
            },
        },
{
}

/// The view of a right hand side is of the same kind, with the same cells and constants.
pub proof fn law_res_operand_view(value: ResOperand)
    ensures
        match value {
            ResOperand::Deref(cell) => value@ matches ResOperand::Deref(other) && other == cell,
            ResOperand::DoubleDeref(cell, offset) => {
                &&& value@ matches ResOperand::DoubleDeref(other, place)
                &&& other == cell
                &&& place == offset
            },
            ResOperand::Immediate(imm) => value@ matches ResOperand::Immediate(other) && other
                == imm@,
            ResOperand::BinOp(bin_op) => {
                &&& value@ matches ResOperand::BinOp(other)
                &&& other.op == bin_op.op
                &&& other.a == bin_op.a
                &&& other.b == bin_op.b@
            },
        },
{
}

/// The view of an instruction does the same, to AP too, and has the same hints.
pub proof fn law_instruction_view(value: Instruction)
    ensures
        value@.inc_ap == value.inc_ap,
        value@.hints == value.hints@,
        value@.body == value.body@,
        match value.body {
            InstructionBody::AddAp(inst) => value@.body matches InstructionBody::AddAp(other)
                && other.operand == inst.operand@,
            InstructionBody::AssertEq(inst) => {
                &&& value@.body matches InstructionBody::AssertEq(other)
                &&& other.a == inst.a
                &&& other.b == inst.b@
            },
            InstructionBody::Call(inst) => {
                &&& value@.body matches InstructionBody::Call(other)
                &&& other.target == inst.target@
                &&& other.relative == inst.relative
            },
            InstructionBody::Jnz(inst) => {
                &&& value@.body matches InstructionBody::Jnz(other)
                &&& other.condition == inst.condition
                &&& other.jump_offset == inst.jump_offset@
            },
            InstructionBody::Jump(inst) => {
                &&& value@.body matches InstructionBody::Jump(other)
                &&& other.target == inst.target@
                &&& other.relative == inst.relative
            },
            InstructionBody::Ret(_) => value@.body is Ret,
        },
{
}

/// The view of a build result has the views of all its instructions and of all its branches, in
/// their places.
pub proof fn law_build_result_view<const COUNT: usize>(
    value: CasmBuildResult<COUNT>,
    i: int,
    b: int,
)
    ensures
        value@.instructions.len() == value.instructions@.len(),
        0 <= i < value.instructions@.len() ==> value@.instructions[i] == value.instructions@[i]@,
        value@.branches.len() == value.branches@.len(),
        0 <= b < value.branches@.len() ==> value@.branches[b].0 == value.branches@[b].0@
            && value@.branches[b].1 == value.branches@[b].1@,
{
}

/// The view of a state has all that is in it.
pub(crate) proof fn law_state_view(value: State)
    ensures
        value@.vars == value.vars@,
        value@.allocated == value.allocated,
        value@.ap_change == value.ap_change,
        value@.steps == value.steps,
{
}

/// The views of operands are those of each of them, in their places.
pub proof fn law_operands_view(operands: Seq<ResOperand>, i: int)
    ensures
        operands_view(operands).len() == operands.len(),
        0 <= i < operands.len() ==> operands_view(operands)[i] == operands[i]@,
{
}

/// The views of names are the characters of each of them, in their places.
pub proof fn law_names_view(names: Seq<&str>, strings: Seq<String>, i: int)
    ensures
        names_view(names).len() == names.len(),
        0 <= i < names.len() ==> names_view(names)[i] == names[i]@,
        strings_view(strings).len() == strings.len(),
        0 <= i < strings.len() ==> strings_view(strings)[i] == strings[i]@,
{
}

/// The view of a description of a variable has its name and its value.
pub proof fn law_variable_desc_view(value: VarBaseDesc)
    ensures
        value@.name == value.name@,
        value@.var_expr == value.var_expr@,
{
}

/// The view of a recorded statement is of the same kind, with all that was recorded of it.
pub proof fn law_statement_desc_view(value: StatementDesc)
    ensures
        match value {
            StatementDesc::TempVar(desc) => {
                &&& value@ matches StatementDesc::TempVar(other)
                &&& other.name == desc.name@
                &&& other.var_expr == desc.var_expr@
                &&& other.ap_change == desc.ap_change
                &&& other.expr is Some <==> desc.expr is Some
                &&& desc.expr matches Some(expr) ==> other.expr == Some(expr@)
            },
            StatementDesc::LocalVar(desc) => {
                &&& value@ matches StatementDesc::LocalVar(other)
                &&& other.name == desc.name@
                &&& other.var_expr == desc.var_expr@
                &&& other.ap_change == desc.ap_change
                &&& other.expr is Some <==> desc.expr is Some
                &&& desc.expr matches Some(expr) ==> other.expr == Some(expr@)
            },
            StatementDesc::Let(desc) => {
                &&& value@ matches StatementDesc::Let(other)
                &&& other.lhs == desc.lhs@
                &&& other.expr == desc.expr@
                &&& other.ap_change == desc.ap_change
            },
            StatementDesc::Assert(desc) => {
                &&& value@ matches StatementDesc::Assert(other)
                &&& other.lhs == desc.lhs@
                &&& other.expr == desc.expr@
                &&& other.ap_change == desc.ap_change
            },
            StatementDesc::ApPlus(size) => value@ matches StatementDesc::ApPlus(other) && other
                == size,
            StatementDesc::Jump(desc) => {
                &&& value@ matches StatementDesc::Jump(other)
                &&& other.target == desc.target@
                &&& other.ap_change == desc.ap_change
                &&& other.cond_var is Some <==> desc.cond_var is Some
                &&& desc.cond_var matches Some(var) ==> other.cond_var == Some(var@)
            },
            StatementDesc::Label(desc) => {
                &&& value@ matches StatementDesc::Label(other)
                &&& other.label == desc.label@
                &&& other.ap_change == desc.ap_change
            },
            StatementDesc::Fail => value@ is Fail,
        },
{
}

/// The view of a recorded expression has its text, its operands and its operation.
pub proof fn law_expression_desc_view(value: ExprDesc)
    ensures
        value@.expr == value.expr@,
        value@.var_a == value.var_a@,
        value@.op == value.op@,
        value@.var_b is Some <==> value.var_b is Some,
        value.var_b matches Some(var) ==> value@.var_b == Some(var@),
{
}

/// The view of a return branch has its name and all the names that it returns, in their places.
pub proof fn law_return_branch_view(value: RetBranchDesc, i: int, j: int)
    ensures
        value@.name == value.name@,
        value@.exprs.len() == value.exprs@.len(),
        0 <= i < value.exprs@.len() ==> value@.exprs[i].len() == value.exprs@[i].names@.len(),
        0 <= i < value.exprs@.len() && 0 <= j < value.exprs@[i].names@.len() ==> value@.exprs[i][j]
            == value.exprs@[i].names@[j]@,
{
}

/// The view of the auxiliary information has all that is in it, in its place.
pub proof fn law_information_view(value: CasmBuilderAuxiliaryInfo, var: Var, i: int)
    ensures
        value@.var_names.contains_key(var) <==> value.var_names@.contains_key(var.spec_index()),
        value@.var_names.contains_key(var) ==> value@.var_names[var]
            == value.var_names@[var.spec_index()]@,
        value@.consts.len() == value.consts@.len(),
        0 <= i < value.consts@.len() ==> value@.consts[i].name == value.consts@[i].name@
            && value@.consts[i].expr == value.consts@[i].expr@ && value@.consts[i].value
            == value.consts@[i].value@,
        value@.args.len() == value.args@.len(),
        0 <= i < value.args@.len() ==> value@.args[i] == (value.args@[i].0, value.args@[i].1@),
        value@.statements.len() == value.statements@.len(),
        0 <= i < value.statements@.len() ==> value@.statements[i] == value.statements@[i]@,
        value@.return_branches.len() == value.return_branches@.len(),
        0 <= i < value.return_branches@.len() ==> value@.return_branches[i]
            == value.return_branches@[i]@,
        value@.core_libfunc_instr_num == value.core_libfunc_instr_num,
        value@.alg_type is Some <==> value.alg_type is Some,
        value.alg_type matches Some(alg_type) ==> value@.alg_type == Some(alg_type@),
{
}

/// The view of a kind of division is of the same kind, with the same bound.
pub proof fn law_alg_type_view(value: LibfuncAlgTypeDesc)
    ensures
        value matches LibfuncAlgTypeDesc::DivRemKnownSmallLhs { lhs_upper_sqrt } ==> (
        value@ matches LibfuncAlgTypeDesc::DivRemKnownSmallLhs { lhs_upper_sqrt: other } && other
            == lhs_upper_sqrt@),
        value is DivRemKnownSmallRhs ==> value@ is DivRemKnownSmallRhs,
        value matches LibfuncAlgTypeDesc::DivRemKnownSmallQuotient { q_upper_bound } ==> (
        value@ matches LibfuncAlgTypeDesc::DivRemKnownSmallQuotient { q_upper_bound: other }
            && other == q_upper_bound@),
{
}

} // verus!
