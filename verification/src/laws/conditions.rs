//! When operations can be taken.

use vstd::prelude::*;

use crate::cell_expression::{CellExpression, CellOperator};
use crate::laws::operations::{
    ap_step, is_just_the_cell, is_operation_with, one_step_later, points_to,
};
use crate::model::{passed_to_function, BuilderView};
use crate::operand::{CellRef, DerefOrImmediate, Register};
use crate::state::{StateView, Var};

verus! {

/// Whether the cell can still be addressed once AP has grown by `ap_change`: offsets have 16 bits.
pub open spec fn in_reach(cell: CellRef, ap_change: int) -> bool {
    cell.register == Register::AP ==> ap_change <= 0x7fff && cell.offset - ap_change >= -0x8000
}

/// Whether all the cells of the expression can still be addressed once AP has grown by `ap_change`.
pub open spec fn all_in_reach(expression: CellExpression<int>, ap_change: int) -> bool {
    forall|cell: CellRef| #[trigger] reads(expression, cell) ==> in_reach(cell, ap_change)
}

/// Whether the expression reads the cell, by its address.
pub open spec fn reads(expression: CellExpression<int>, cell: CellRef) -> bool {
    match expression {
        CellExpression::Deref(a) => a == cell,
        CellExpression::DoubleDeref(a, _) => a == cell,
        CellExpression::Immediate(_) => false,
        CellExpression::BinOp { op: _, a, b } => a == cell || b
            == DerefOrImmediate::<int>::Deref(cell),
    }
}

/// Whether `var` is known and can be written in relation to the current AP.
pub open spec fn is_usable(state: StateView, var: Var) -> bool {
    &&& state.vars.map.contains_key(var)
    &&& all_in_reach(state.vars.map[var], state.ap_change)
}

/// Whether `var` is a cell that can be addressed from the current AP.
pub open spec fn is_usable_cell(state: StateView, var: Var) -> bool {
    &&& is_usable(state, var)
    &&& state.vars.map[var] is Deref
}

/// Whether an instruction can be added: the code is reachable, and the step can be counted.
pub open spec fn is_open(builder: BuilderView) -> bool {
    builder.reachable && builder.main_state.steps < usize::MAX
}

/// Whether one more variable can be numbered.
pub open spec fn has_number_left(builder: BuilderView) -> bool {
    builder.var_count < usize::MAX
}

/// Whether a label can be reached in the state `state`: for the first time, or in agreement with
/// what is known of it, and by no longer way once it was read.
pub open spec fn can_be_reached(builder: BuilderView, label: Seq<char>, state: StateView) -> bool {
    builder.label_state.contains_key(label) ==> {
        let known = builder.label_state[label];
        &&& known.ap_change == state.ap_change
        &&& known.allocated == state.allocated
        &&& builder.read_labels.contains(label) ==> state.steps <= known.steps
        &&& forall|var: Var| #[trigger]
            known.vars.map.contains_key(var) && state.vars.map.contains_key(var)
                ==> known.vars.map[var] == state.vars.map[var]
    }
}

/// A value can be written in relation to the current AP if and only if its cells are in reach.
pub proof fn law_when_usable(state: StateView, var: Var)
    ensures
        state.has_value(var, true) <==> is_usable(state, var),
        state.has_value(var, false) <==> state.vars.map.contains_key(var),
        state.has_cell(var, true) <==> is_usable_cell(state, var),
        state.has_cell(var, false) <==> state.vars.map.contains_key(var)
            && state.vars.map[var] is Deref,
{
    lemma_all_in_reach(state.vars.map[var], state.ap_change);
}

/// A cell, an operand and an expression can be written in relation to a later AP if and only if
/// their cells are in reach.
pub proof fn law_when_in_reach(
    cell: CellRef,
    operand: DerefOrImmediate<int>,
    expression: CellExpression<int>,
    ap_change: int,
)
    ensures
        cell.can_apply_ap_change(ap_change) <==> in_reach(cell, ap_change),
        operand.can_apply_ap_change(ap_change) <==> (operand matches DerefOrImmediate::Deref(a)
            ==> in_reach(a, ap_change)),
        expression.can_apply_ap_change(ap_change) <==> all_in_reach(expression, ap_change),
{
    lemma_all_in_reach(expression, ap_change);
}

/// What it takes for an expression to be in reach.
proof fn lemma_all_in_reach(expression: CellExpression<int>, ap_change: int)
    ensures
        all_in_reach(expression, ap_change) <==> expression.can_apply_ap_change(ap_change),
{
    match expression {
        CellExpression::Deref(a) => {
            assert(reads(expression, a));
        },
        CellExpression::DoubleDeref(a, _) => {
            assert(reads(expression, a));
        },
        CellExpression::Immediate(_) => {},
        CellExpression::BinOp { op: _, a, b } => {
            assert(reads(expression, a));
            if let DerefOrImmediate::Deref(cell) = b {
                assert(reads(expression, cell));
            }
        },
    }
}

/// A state is final if and only if AP has passed all the allocated cells.
pub proof fn law_when_final(state: StateView)
    ensures
        state.is_final() <==> 0 <= state.allocated && state.allocated <= state.ap_change,
{
}

/// When variables can be made.
pub proof fn law_when_vars_can_be_made(builder: BuilderView, var: Var)
    ensures
        builder.can_add_var() <==> has_number_left(builder),
        builder.can_alloc_var() <==> has_number_left(builder) && builder.main_state.allocated
            < 0x7fff,
        builder.can_duplicate_var(var) <==> has_number_left(builder)
            && builder.main_state.vars.map.contains_key(var),
{
}

/// When `dst = res` can be asserted.
pub proof fn law_when_assert_vars_eq(builder: BuilderView, dst: Var, res: Var)
    ensures
        builder.can_emit() <==> is_open(builder),
        builder.can_assert_vars_eq(dst, res) <==> is_open(builder) && is_usable_cell(
            builder.main_state,
            dst,
        ) && is_usable(builder.main_state, res),
{
    law_when_usable(builder.main_state, dst);
    law_when_usable(builder.main_state, res);
}

/// When `lhs op rhs` is an expression.
pub proof fn law_when_bin_op(builder: BuilderView, lhs: Var, rhs: Var)
    ensures
        builder.can_bin_op(lhs, rhs) <==> {
            let vars = builder.main_state.vars.map;
            &&& has_number_left(builder)
            &&& vars.contains_key(lhs) && vars[lhs] is Deref
            &&& vars.contains_key(rhs) && (vars[rhs] is Deref || vars[rhs] is Immediate)
        },
{
}

/// When `[[var] + offset]` is an expression: `var` points somewhere, and the place `offset` behind
/// it can be addressed.
pub proof fn law_when_double_deref(builder: BuilderView, var: Var, offset: i16)
    ensures
        builder.can_double_deref(var, offset as int) <==> {
            let vars = builder.main_state.vars.map;
            &&& has_number_left(builder)
            &&& vars.contains_key(var)
            &&& exists|cell: CellRef, place: int| #[trigger]
                points_to(vars[var], cell, place) && -0x8000 <= place + offset <= 0x7fff
        },
        builder.can_get_ref_and_inc(var) <==> builder.can_double_deref(var, 0),
{
    let value = builder.main_state.vars.map[var];
    if let CellExpression::Deref(cell) = value {
        assert(points_to(value, cell, 0));
    }
    if let CellExpression::BinOp { op: CellOperator::Add, a, b: DerefOrImmediate::Immediate(imm) } =
        value {
        assert(points_to(value, a, imm));
    }
}

/// When `value` can be written to the buffer: the buffer points to a place that is not the last one
/// that can be addressed, and the place and `value` can be compared.
pub proof fn law_when_buffer_write(builder: BuilderView, buffer: Var, value: Var)
    ensures
        builder.can_buffer_write_and_inc(buffer, value) <==> {
            let state = builder.main_state;
            &&& has_number_left(builder)
            &&& is_open(builder)
            &&& state.vars.map.contains_key(buffer)
            &&& exists|cell: CellRef, place: int| #[trigger]
                points_to(state.vars.map[buffer], cell, place) && -0x8000 <= place < 0x7fff
                    && in_reach(cell, state.ap_change)
            &&& is_usable_cell(state, value)
            &&& value != buffer
            &&& value != builder.next_var()
        },
{
    let state = builder.main_state;
    let pointed = state.vars.map[buffer];
    law_when_usable(state, value);
    if let CellExpression::Deref(cell) = pointed {
        assert(points_to(pointed, cell, 0));
    }
    if let CellExpression::BinOp { op: CellOperator::Add, a, b: DerefOrImmediate::Immediate(imm) } =
        pointed {
        assert(points_to(pointed, a, imm));
    }
    if builder.has_pointer(buffer, 0) {
        let (cell, place) = builder.pointer(buffer);
        assert(points_to(pointed, cell, place));
    }
}

/// When the value of a variable can be had in a cell: it is just a cell, or a cell can be allocated
/// and asserted to hold it.
pub proof fn law_when_maybe_add_tempvar(builder: BuilderView, var: Var)
    requires
        var != builder.next_var(),
        0 <= builder.main_state.allocated,
    ensures
        builder.can_maybe_add_tempvar(var) <==> {
            let state = builder.main_state;
            &&& has_number_left(builder)
            &&& state.vars.map.contains_key(var)
            &&& if exists|cell: CellRef| is_just_the_cell(state.vars.map[var], cell) {
                true
            } else {
                &&& state.allocated < 0x7fff
                &&& state.ap_change <= 0x7fff
                &&& state.allocated - state.ap_change >= -0x8000
                &&& is_usable(state, var)
                &&& is_open(builder)
            }
        },
{
    let value = builder.main_state.vars.map[var];
    law_when_usable(builder.main_state, var);
    if let CellExpression::Deref(cell) = value {
        assert(is_just_the_cell(value, cell));
    }
    if let CellExpression::BinOp { op, a, b: DerefOrImmediate::Immediate(imm) } = value {
        assert(is_operation_with(value, op, a, imm));
        assert((op == CellOperator::Add || op == CellOperator::Sub) && imm == 0 || (op
            == CellOperator::Mul || op == CellOperator::Div) && imm == 1 ==> is_just_the_cell(
            value,
            a,
        ));
    }
}

/// When AP can be increased.
pub proof fn law_when_ap_can_be_increased(builder: BuilderView, size: usize)
    ensures
        builder.can_add_ap(size as int) <==> is_open(builder) && builder.main_state.ap_change + size
            <= usize::MAX,
        builder.can_increase_ap_change(size as int) <==> builder.main_state.ap_change + size
            <= usize::MAX && size <= 0x7fff && builder.main_state.allocated + size <= 0x7fff,
{
}

/// When a hint can be added: it reads right hand sides of instructions, and writes cells.
pub proof fn law_when_add_hint(builder: BuilderView, inputs: Seq<Var>, outputs: Seq<Var>)
    ensures
        builder.can_add_hint(inputs, outputs) <==> {
            let state = builder.main_state;
            &&& forall|i: int|
                #![trigger inputs[i]]
                0 <= i < inputs.len() ==> is_usable(state, inputs[i]) && !(
                state.vars.map[inputs[i]] matches CellExpression::BinOp { op, .. } && (op
                    == CellOperator::Sub || op == CellOperator::Div))
            &&& forall|i: int|
                #![trigger outputs[i]]
                0 <= i < outputs.len() ==> is_usable_cell(state, outputs[i])
        },
{
    let state = builder.main_state;
    assert forall|var: Var| #[trigger] state.has_value(var, true) <==> is_usable(state, var) by {
        law_when_usable(state, var);
    }
    assert forall|var: Var| #[trigger] state.has_cell(var, true) <==> is_usable_cell(
        state,
        var,
    ) by {
        law_when_usable(state, var);
    }
}

/// When jumps and labels can be added.
pub proof fn law_when_labels_can_be_reached(builder: BuilderView, condition: Var, label: Seq<char>)
    ensures
        ({
            let reached = one_step_later(builder.main_state, ap_step(builder));
            &&& builder.can_jump(label) <==> is_open(builder) && can_be_reached(
                builder,
                label,
                reached,
            )
            &&& builder.can_jump_nz(condition, label) <==> is_open(builder) && is_usable_cell(
                builder.main_state,
                condition,
            ) && can_be_reached(builder, label, reached)
            &&& builder.can_label(label) <==> if builder.reachable {
                can_be_reached(builder, label, builder.main_state)
            } else {
                builder.label_state.contains_key(label)
            }
        }),
{
    law_when_usable(builder.main_state, condition);
}

/// When a function can be called: AP has passed the allocated cells, the variables that are passed
/// can be addressed by the function, and the label can be reached with them.
pub proof fn law_when_call(builder: BuilderView, label: Seq<char>)
    ensures
        builder.can_call(label) <==> {
            let state = builder.main_state;
            &&& 0 <= state.allocated && state.allocated <= state.ap_change
            &&& is_open(builder)
            &&& forall|var: Var| #[trigger]
                builder.function_state().vars.map.contains_key(var) ==> state.ap_change + 2
                    <= usize::MAX && all_in_reach(state.vars.map[var], state.ap_change + 2)
            &&& can_be_reached(builder, label, builder.function_state())
        },
{
    let state = builder.main_state;
    let passed = builder.function_state().vars.map;
    assert forall|var: Var| all_in_reach(#[trigger] state.vars.map[var], state.ap_change + 2)
        <==> state.vars.map[var].can_apply_ap_change(state.ap_change + 2) by {
        lemma_all_in_reach(state.vars.map[var], state.ap_change + 2);
    }
    if forall|var: Var| #[trigger]
        passed.contains_key(var) ==> state.ap_change + 2 <= usize::MAX && all_in_reach(
            state.vars.map[var],
            state.ap_change + 2,
        ) {
        assert forall|var: Var| #[trigger]
            state.vars.map.contains_key(var) && passed_to_function(
                state.vars.map[var],
            ) implies state.ap_change + 2 <= usize::MAX
            && state.vars.map[var].can_apply_ap_change(state.ap_change + 2) by {
            assert(passed.contains_key(var));
        }
    }
    if builder.can_pass_vars() {
        assert forall|var: Var| #[trigger] passed.contains_key(var) implies state.ap_change + 2
            <= usize::MAX && all_in_reach(state.vars.map[var], state.ap_change + 2) by {
            assert(state.vars.map.contains_key(var));
        }
    }
}

/// When a return can be added, and when values can be carried over.
pub proof fn law_when_runs_can_end(builder: BuilderView, vars: Seq<(Var, Var)>)
    ensures
        ({
            let state = builder.main_state;
            let passed = 0 <= state.allocated && state.allocated <= state.ap_change;
            &&& builder.can_ret() <==> passed && is_open(builder)
            &&& builder.can_rescope(vars) <==> passed && (forall|i: int|
                #![trigger vars[i]]
                0 <= i < vars.len() ==> is_usable(state, vars[i].1))
        }),
{
    let state = builder.main_state;
    assert forall|var: Var| #[trigger] state.has_value(var, true) <==> is_usable(state, var) by {
        law_when_usable(state, var);
    }
}

/// When so many returned values can have variables: there are numbers for the variables, and 16
/// bits hold the offsets.
pub proof fn law_when_values_can_be_returned(builder: BuilderView, count: usize)
    ensures
        builder.can_return(count as int) <==> count <= 0x7fff && builder.var_count + count
            <= usize::MAX,
{
}

/// When `dst = a op b` and `dst = [buffer + offset]` can be asserted.
pub proof fn law_when_expressions_can_be_asserted(
    builder: BuilderView,
    dst: Var,
    a: Var,
    op: CellOperator,
    b: Var,
    offset: i16,
)
    ensures
        builder.can_assert_op(dst, a, op, b) <==> {
            &&& builder.can_bin_op(a, b)
            &&& is_usable(builder.main_state, a) && is_usable(builder.main_state, b)
            &&& is_usable_cell(builder.main_state, dst)
            &&& dst != builder.next_var()
            &&& is_open(builder)
        },
        builder.can_assert_at(dst, a, offset as int) <==> {
            &&& builder.can_double_deref(a, offset as int)
            &&& is_usable(builder.main_state, a)
            &&& is_usable_cell(builder.main_state, dst)
            &&& dst != builder.next_var()
            &&& is_open(builder)
        },
{
    law_when_usable(builder.main_state, dst);
    law_when_usable(builder.main_state, a);
    law_when_usable(builder.main_state, b);
}

} // verus!
