//! How expressions are written: elsewhere, as operands, and by a called function.

use vstd::prelude::*;

use crate::cell_expression::{CellExpression, CellOperator};
use crate::instructions::InstructionBody;
use crate::model::{function_value, rescoped, BuilderView, StatementView};
use crate::operand::{CellRef, DerefOrImmediate, Operation, Register, ResOperand};
use crate::state::{StateView, Var};

verus! {

/// Whether `there` is `cell`, addressed once AP has grown by `ap_change`: by the same register, and
/// if that is AP, so much further back.
pub open spec fn is_same_cell(cell: CellRef, there: CellRef, ap_change: int) -> bool {
    match cell.register {
        Register::AP => there.register == Register::AP && there.offset == cell.offset - ap_change,
        Register::FP => there == cell,
    }
}

/// Whether `there` is `cell` as a function sees it that begins once AP has grown by `ap_change`:
/// that AP is its FP. A cell that is addressed by FP keeps its offset.
pub open spec fn is_cell_for_function(cell: CellRef, there: CellRef, ap_change: int) -> bool {
    &&& there.register == Register::FP
    &&& there.offset == match cell.register {
        Register::AP => cell.offset - ap_change,
        Register::FP => cell.offset as int,
    }
}

/// Whether `there` is `expression` with each cell changed for one that is `related` to it: of the
/// same kind, with the same operation and constants, and with the operands in their places.
pub open spec fn is_same_but_for_cells(
    expression: CellExpression<int>,
    there: CellExpression<int>,
    related: spec_fn(CellRef, CellRef) -> bool,
) -> bool {
    match (expression, there) {
        (CellExpression::Deref(a), CellExpression::Deref(x)) => related(a, x),
        (CellExpression::DoubleDeref(a, offset), CellExpression::DoubleDeref(x, place)) => related(
            a,
            x,
        ) && place == offset,
        (CellExpression::Immediate(imm), CellExpression::Immediate(same)) => same == imm,
        (CellExpression::BinOp { op, a, b }, CellExpression::BinOp { op: done, a: x, b: y }) => {
            &&& done == op
            &&& related(a, x)
            &&& match (b, y) {
                (DerefOrImmediate::Deref(b), DerefOrImmediate::Deref(y)) => related(b, y),
                (DerefOrImmediate::Immediate(imm), DerefOrImmediate::Immediate(same)) => same
                    == imm,
                _ => false,
            }
        },
        _ => false,
    }
}

/// Writing an expression in relation to a later AP changes the offsets from AP, and nothing else.
pub proof fn law_ap_changed_form(
    cell: CellRef,
    operand: DerefOrImmediate<int>,
    expression: CellExpression<int>,
    ap_change: int,
)
    requires
        ap_change >= 0,
    ensures
        cell.can_apply_ap_change(ap_change) ==> is_same_cell(
            cell,
            cell.ap_changed(ap_change),
            ap_change,
        ),
        operand.can_apply_ap_change(ap_change) ==> match operand {
            DerefOrImmediate::Deref(a) => operand.ap_changed(
                ap_change,
            ) matches DerefOrImmediate::Deref(x) && is_same_cell(a, x, ap_change),
            DerefOrImmediate::Immediate(imm) => operand.ap_changed(ap_change)
                == DerefOrImmediate::<int>::Immediate(imm),
        },
        expression.can_apply_ap_change(ap_change) ==> is_same_but_for_cells(
            expression,
            expression.ap_changed(ap_change),
            |a: CellRef, x: CellRef| is_same_cell(a, x, ap_change),
        ),
{
}

/// The values that a state gives for use now are those that it has, with the offsets from AP that
/// they have now.
pub proof fn law_state_value_forms(state: StateView, var: Var)
    requires
        state.has_value(var, true),
        state.ap_change >= 0,
    ensures
        is_same_but_for_cells(
            state.vars.map[var],
            state.value(var, true),
            |a: CellRef, x: CellRef| is_same_cell(a, x, state.ap_change),
        ),
        state.has_cell(var, true) ==> is_same_cell(
            state.vars.map[var]->Deref_0,
            state.cell(var, true),
            state.ap_change,
        ),
{
    law_ap_changed_form(
        state.cell(var, true),
        DerefOrImmediate::Immediate(0),
        state.vars.map[var],
        state.ap_change,
    );
}

/// A right hand side is written as the expression is, with the operands in their places.
pub proof fn law_operand_form(expression: CellExpression<int>)
    ensures
        expression.as_res_operand() matches Some(operand) ==> match expression {
            CellExpression::Deref(cell) => operand == ResOperand::<int>::Deref(cell),
            CellExpression::DoubleDeref(cell, offset) => operand == ResOperand::<int>::DoubleDeref(
                cell,
                offset,
            ),
            CellExpression::Immediate(imm) => operand == ResOperand::Immediate(imm),
            CellExpression::BinOp { op, a, b } => operand matches ResOperand::BinOp(bin_op) && {
                &&& bin_op.op == Operation::Add <==> op == CellOperator::Add
                &&& bin_op.op == Operation::Mul <==> op == CellOperator::Mul
                &&& bin_op.a == a
                &&& bin_op.b == b
            },
        },
{
}

/// What a hint reads is written as the values of the variables are now.
pub proof fn law_hint_input_forms(
    builder: BuilderView,
    inputs: Seq<Var>,
    outputs: Seq<Var>,
    i: int,
)
    requires
        builder.can_add_hint(inputs, outputs),
        0 <= i < inputs.len(),
    ensures
        builder.main_state.value(inputs[i], true).as_res_operand() == Some(
            builder.hint_inputs(inputs)[i],
        ),
{
    assert(builder.main_state.has_value(inputs[i], true));
}

/// A called function addresses all that it is passed by FP.
pub proof fn law_call_form(builder: BuilderView, var: Var)
    requires
        builder.can_pass_vars(),
        builder.main_state.wf(),
        builder.function_state().vars.map.contains_key(var),
    ensures
        is_same_but_for_cells(
            builder.main_state.vars.map[var],
            builder.function_state().vars.map[var],
            |a: CellRef, x: CellRef|
                is_cell_for_function(a, x, builder.main_state.ap_change + 2),
        ),
{
    let state = builder.main_state;
    let value = state.vars.map[var];
    assert(state.vars.map.contains_key(var));
    assert(builder.function_state().vars.map[var] == function_value(value, state.ap_change + 2));
}

/// Carrying values over writes them as they are at the end of the run.
pub proof fn law_rescope_form(builder: BuilderView, vars: Seq<(Var, Var)>, var: Var)
    requires
        builder.can_rescope(vars),
        builder.main_state.wf(),
        builder.rescope(vars).main_state.vars.map.contains_key(var),
    ensures
        exists|i: int|
            0 <= i < vars.len() && (#[trigger] vars[i]).0 == var && is_same_but_for_cells(
                builder.main_state.vars.map[vars[i].1],
                builder.rescope(vars).main_state.vars.map[var],
                |a: CellRef, x: CellRef| is_same_cell(a, x, builder.main_state.ap_change),
            ) && forall|j: int| i < j < vars.len() ==> (#[trigger] vars[j]).0 != var,
{
    lemma_last_source(builder.main_state, vars, var);
    let i = choose|i: int|
        0 <= i < vars.len() && (#[trigger] vars[i]).0 == var && builder.rescope(
            vars,
        ).main_state.vars.map[var] == builder.main_state.value(vars[i].1, true) && forall|j: int|
            i < j < vars.len() ==> (#[trigger] vars[j]).0 != var;
    assert(builder.main_state.has_value(vars[i].1, true));
    law_state_value_forms(builder.main_state, vars[i].1);
}

/// What is carried over to a variable comes from its last place on the left.
proof fn lemma_last_source(state: StateView, vars: Seq<(Var, Var)>, var: Var)
    requires
        rescoped(state, vars).map.contains_key(var),
    ensures
        exists|i: int|
            0 <= i < vars.len() && (#[trigger] vars[i]).0 == var && rescoped(
                state,
                vars,
            ).map[var] == state.value(vars[i].1, true) && forall|j: int|
                i < j < vars.len() ==> (#[trigger] vars[j]).0 != var,
    decreases vars.len(),
{
    let last = vars.len() - 1;
    if vars.len() > 0 && vars[last].0 != var {
        lemma_last_source(state, vars.drop_last(), var);
        let i = choose|i: int|
            0 <= i < last && (#[trigger] vars.drop_last()[i]).0 == var && rescoped(
                state,
                vars.drop_last(),
            ).map[var] == state.value(vars.drop_last()[i].1, true) && forall|j: int|
                i < j < last ==> (#[trigger] vars.drop_last()[j]).0 != var;
        assert(vars[i] == vars.drop_last()[i]);
        assert forall|j: int| i < j < vars.len() implies (#[trigger] vars[j]).0 != var by {
            if j < last {
                assert(vars.drop_last()[j] == vars[j]);
            }
        }
    }
}

/// `fail` asserts that a cell holds one more than it does: the one before FP.
pub proof fn law_fail_form(builder: BuilderView)
    ensures
        builder.fail().statements.last() matches StatementView::Final(inst)
            && inst.body matches InstructionBody::AssertEq(assertion) && {
            &&& assertion.a.register == Register::FP && assertion.a.offset == -1
            &&& assertion.b matches ResOperand::BinOp(sum) && {
                &&& sum.op == Operation::Add
                &&& sum.a == assertion.a
                &&& sum.b == DerefOrImmediate::<int>::Immediate(1)
            }
        },
{
}

} // verus!
