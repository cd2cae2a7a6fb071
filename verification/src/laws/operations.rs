//! What each operation of a builder does, all of it: what it adds and what it leaves alone.

use vstd::prelude::*;

use crate::cell_expression::{CellExpression, CellOperator};
use crate::hints::Hint;
use crate::instructions::{
    AddApInstruction, CallInstruction, InstructionBody, InstructionView, JumpInstruction,
    RetInstruction,
};
use crate::laws::maps::{in_order_of, law_select};
use crate::laws::values::{
    law_ap_changed_keeps_value, law_assertion_means_equality, law_fail_never_holds,
    law_operand_is_value,
};
use crate::model::{
    function_value, kept_by_caller, passed_to_function, BuilderView, StatementView,
};
use crate::operand::{CellRef, DerefOrImmediate, Register, ResOperand};
use crate::semantics::Machine;
use crate::state::{StateView, Var};

verus! {

/// How much an instruction that can increment AP increases it here: by 1 if a cell was allocated
/// that AP has not passed.
pub open spec fn ap_step(builder: BuilderView) -> int {
    if builder.main_state.allocated > builder.main_state.ap_change {
        1
    } else {
        0
    }
}

/// The state one step later, with AP further by `ap_increase`.
pub open spec fn one_step_later(state: StateView, ap_increase: int) -> StateView {
    StateView {
        vars: state.vars,
        allocated: state.allocated,
        ap_change: state.ap_change + ap_increase,
        steps: state.steps + 1,
    }
}

/// Whether `after` is `before` with the statement added, the pending hints taken, and the state
/// `state`. The labels, the variables made and whether the code is reachable are the same.
pub open spec fn adds_statement(
    before: BuilderView,
    after: BuilderView,
    statement: StatementView,
    state: StateView,
) -> bool {
    &&& after.statements == before.statements.push(statement)
    &&& after.current_hints == Seq::<Hint>::empty()
    &&& after.main_state == state
    &&& after.label_state == before.label_state
    &&& after.read_labels == before.read_labels
    &&& after.var_count == before.var_count
}

/// Whether `after` is `before` with nothing changed but the state, in which only the variables and
/// the number of allocated cells may differ, and the number of variables made.
pub open spec fn adds_no_code(before: BuilderView, after: BuilderView) -> bool {
    &&& after.statements == before.statements
    &&& after.current_hints == before.current_hints
    &&& after.label_state == before.label_state
    &&& after.read_labels == before.read_labels
    &&& after.reachable == before.reachable
    &&& after.main_state.ap_change == before.main_state.ap_change
    &&& after.main_state.steps == before.main_state.steps
}

/// Whether `after` is `before` with one more variable, `builder.next_var()`, which is the
/// expression `value`.
pub open spec fn adds_variable(
    before: BuilderView,
    after: BuilderView,
    value: CellExpression<int>,
) -> bool {
    let var = Var::spec_new(before.var_count as usize);
    &&& adds_no_code(before, after)
    &&& after.var_count == before.var_count + 1
    &&& after.main_state.vars.map == before.main_state.vars.map.insert(var, value)
    &&& before.main_state.vars.map.contains_key(var) ==> after.main_state.vars.keys
        == before.main_state.vars.keys
    &&& !before.main_state.vars.map.contains_key(var) ==> after.main_state.vars.keys
        == before.main_state.vars.keys.push(var)
}

/// Whether `after` knows of the label `label` what `before` did, met with the state `reached`, and
/// of the other labels what `before` did. What is known of a label that is reached for the first
/// time is the state that it is reached in; later it is what all the ways to it have in common.
pub open spec fn reaches_label(
    before: Map<Seq<char>, StateView>,
    after: Map<Seq<char>, StateView>,
    label: Seq<char>,
    reached: StateView,
) -> bool {
    &&& after.remove(label) == before.remove(label)
    &&& after.contains_key(label)
    &&& !before.contains_key(label) ==> after[label] == reached
    &&& before.contains_key(label) ==> {
        &&& forall|var: Var| #[trigger]
            after[label].vars.map.contains_key(var) <==> before[label].vars.map.contains_key(var)
                && reached.vars.map.contains_key(var)
        &&& forall|var: Var| #[trigger]
            after[label].vars.map.contains_key(var) ==> after[label].vars.map[var]
                == before[label].vars.map[var] && after[label].vars.map[var]
                == reached.vars.map[var]
        &&& after[label].ap_change == before[label].ap_change == reached.ap_change
        &&& after[label].allocated == before[label].allocated == reached.allocated
        &&& after[label].steps >= before[label].steps
        &&& after[label].steps >= reached.steps
        &&& after[label].steps == before[label].steps || after[label].steps == reached.steps
    }
}

/// A new builder holds nothing, and its code is reachable.
pub proof fn law_new_builder()
    ensures
        ({
            let builder = BuilderView::initial();
            &&& builder.statements.len() == 0
            &&& builder.current_hints.len() == 0
            &&& builder.var_count == 0
            &&& builder.reachable
            &&& forall|label: Seq<char>| !builder.label_state.contains_key(label)
            &&& forall|label: Seq<char>| !builder.read_labels.contains(label)
            &&& builder.main_state.vars.keys.len() == 0
            &&& forall|var: Var| !builder.main_state.vars.map.contains_key(var)
            &&& builder.main_state.allocated == 0
            &&& builder.main_state.ap_change == 0
            &&& builder.main_state.steps == 0
        }),
{
}

/// What a state says of a variable: the value that was given, or the same in relation to the
/// current AP.
pub proof fn law_state_values(state: StateView, machine: Machine, var: Var, value: int)
    requires
        state.ap_change >= 0,
    ensures
        state.has_value(var, false) <==> state.vars.map.contains_key(var),
        state.value(var, false) == state.vars.map[var],
        state.has_value(var, true) ==> (machine.advanced(state.ap_change).has_value(
            state.value(var, true),
            value,
        ) <==> machine.has_value(state.vars.map[var], value)),
        state.has_cell(var, false) <==> state.vars.map.contains_key(var)
            && state.vars.map[var] is Deref,
        state.has_cell(var, false) ==> state.vars.map[var] == CellExpression::<int>::Deref(
            state.cell(var, false),
        ),
        state.has_cell(var, true) <==> state.has_value(var, true) && state.vars.map[var] is Deref,
        state.has_cell(var, true) ==> machine.advanced(state.ap_change).cell(state.cell(var, true))
            == machine.cell(state.cell(var, false)),
{
    if state.has_value(var, true) {
        law_ap_changed_keeps_value(machine, state.vars.map[var], state.ap_change, value);
    }
}

/// `alloc_var` gives a variable that is the first cell that is not allocated yet: so many cells
/// from FP for a local variable, and from the AP of the beginning of the run for a temporary one.
/// Nothing else changes.
pub proof fn law_alloc_var(builder: BuilderView, machine: Machine, local_var: bool)
    requires
        builder.can_alloc_var(),
        builder.main_state.wf(),
    ensures
        ({
            let after = builder.alloc_var(local_var);
            let value = after.main_state.vars.map[builder.next_var()];
            &&& adds_variable(builder, after, value)
            &&& after.main_state.allocated == builder.main_state.allocated + 1
            &&& value matches CellExpression::Deref(cell) && {
                &&& cell.register == (if local_var {
                    Register::FP
                } else {
                    Register::AP
                })
                &&& cell.offset == builder.main_state.allocated
                &&& machine.cell(cell) == machine.at(
                    (if local_var {
                        machine.fp
                    } else {
                        machine.ap
                    }) + builder.main_state.allocated,
                )
            }
        }),
{
}

/// Cells that are allocated one after the other are next to each other.
pub proof fn law_allocated_cells_are_consecutive(builder: BuilderView, local_var: bool)
    requires
        builder.can_alloc_var(),
        builder.alloc_var(local_var).can_alloc_var(),
        builder.main_state.wf(),
    ensures
        ({
            let first = builder.alloc_var(local_var);
            let second = first.alloc_var(local_var);
            let a = first.main_state.vars.map[builder.next_var()]->Deref_0;
            let b = second.main_state.vars.map[first.next_var()]->Deref_0;
            &&& a.register == b.register
            &&& b.offset == a.offset + 1
        }),
{
}

/// `duplicate_var` gives a variable that has a value if and only if `var` has it, whatever
/// expression `var` stands for. Nothing else changes.
pub proof fn law_duplicate_var(builder: BuilderView, machine: Machine, var: Var, value: int)
    requires
        builder.can_duplicate_var(var),
    ensures
        ({
            let after = builder.duplicate_var(var);
            &&& adds_variable(builder, after, builder.main_state.vars.map[var])
            &&& after.main_state.allocated == builder.main_state.allocated
            &&& machine.has_value(after.main_state.vars.map[builder.next_var()], value)
                <==> machine.has_value(builder.main_state.vars.map[var], value)
        }),
{
}

/// `bin_op` gives a variable that is the operation on the cell of `lhs` and the cell or constant of
/// `rhs`. Nothing else changes.
pub proof fn law_bin_op_is_added(builder: BuilderView, op: CellOperator, lhs: Var, rhs: Var)
    requires
        builder.can_bin_op(lhs, rhs),
    ensures
        ({
            let vars = builder.main_state.vars.map;
            let after = builder.bin_op(op, lhs, rhs);
            let value = after.main_state.vars.map[builder.next_var()];
            &&& adds_variable(builder, after, value)
            &&& after.main_state.allocated == builder.main_state.allocated
            &&& value matches CellExpression::BinOp { op: done, a, b } && {
                &&& done == op
                &&& vars[lhs] == CellExpression::<int>::Deref(a)
                &&& match b {
                    DerefOrImmediate::Deref(cell) => vars[rhs] == CellExpression::<int>::Deref(
                        cell,
                    ),
                    DerefOrImmediate::Immediate(imm) => vars[rhs]
                        == CellExpression::<int>::Immediate(imm),
                }
            }
        }),
{
}

/// Whether `value` points `offset` places behind the address in `cell`: it is the cell, or the sum
/// of the cell and a constant.
pub open spec fn points_to(value: CellExpression<int>, cell: CellRef, offset: int) -> bool {
    ||| value == CellExpression::<int>::Deref(cell) && offset == 0
    ||| value == CellExpression::BinOp {
        op: CellOperator::Add,
        a: cell,
        b: DerefOrImmediate::Immediate(offset),
    }
}

/// `double_deref` gives a variable that is the place `offset` behind the one that `var` points to.
/// Nothing else changes.
pub proof fn law_double_deref_is_added(builder: BuilderView, var: Var, offset: i16)
    requires
        builder.can_double_deref(var, offset as int),
    ensures
        ({
            let after = builder.double_deref(var, offset as int);
            let value = after.main_state.vars.map[builder.next_var()];
            &&& adds_variable(builder, after, value)
            &&& after.main_state.allocated == builder.main_state.allocated
            &&& value matches CellExpression::DoubleDeref(cell, place) && points_to(
                builder.main_state.vars.map[var],
                cell,
                place - offset,
            )
        }),
{
}

/// `get_ref_and_inc` gives a variable that is the place that `buffer` points to, and lets `buffer`
/// point one place further, in the same memory. Nothing else changes.
pub proof fn law_get_ref_and_inc(builder: BuilderView, buffer: Var, other: Var)
    requires
        builder.can_get_ref_and_inc(buffer),
        buffer != builder.next_var(),
    ensures
        ({
            let before = builder.main_state.vars.map;
            let after = builder.buffer_location(buffer);
            let vars = after.main_state.vars.map;
            &&& adds_no_code(builder, after)
            &&& after.main_state.allocated == builder.main_state.allocated
            &&& after.var_count == builder.var_count + 1
            &&& vars.contains_key(builder.next_var()) && vars.contains_key(buffer)
            &&& vars[builder.next_var()] matches CellExpression::DoubleDeref(cell, place) && {
                &&& points_to(before[buffer], cell, place as int)
                &&& vars[buffer] == CellExpression::BinOp {
                    op: CellOperator::Add,
                    a: cell,
                    b: DerefOrImmediate::Immediate(place + 1),
                }
            }
            &&& other != buffer && other != builder.next_var() ==> {
                &&& vars.contains_key(other) <==> before.contains_key(other)
                &&& vars[other] == before[other]
            }
        }),
{
}

/// What is read from a buffer one after the other stands in places that follow each other.
pub proof fn law_buffer_places_are_consecutive(builder: BuilderView, buffer: Var)
    requires
        builder.can_get_ref_and_inc(buffer),
        builder.buffer_location(buffer).can_get_ref_and_inc(buffer),
        buffer != builder.next_var(),
        buffer != builder.buffer_location(buffer).next_var(),
    ensures
        ({
            let first = builder.buffer_location(buffer);
            let second = first.buffer_location(buffer);
            let a = first.main_state.vars.map[builder.next_var()];
            let b = second.main_state.vars.map[first.next_var()];
            &&& a is DoubleDeref && b is DoubleDeref
            &&& a->DoubleDeref_0 == b->DoubleDeref_0
            &&& b->DoubleDeref_1 == a->DoubleDeref_1 + 1
        }),
{
}

/// `assert_vars_eq` adds one assertion, which holds, when the machine gets there, if and only if
/// the cell `dst` holds the value of `res`. It takes the pending hints, and increments AP if there
/// is a cell to pass.
pub proof fn law_assert_vars_eq_is_added(builder: BuilderView, machine: Machine, dst: Var, res: Var)
    requires
        machine.wf(),
        builder.can_assert_vars_eq(dst, res),
        builder.main_state.wf(),
    ensures
        ({
            let state = builder.main_state;
            let after = builder.assert_vars_eq(dst, res);
            &&& adds_statement(
                builder,
                after,
                after.statements.last(),
                one_step_later(state, ap_step(builder)),
            )
            &&& after.reachable
            &&& after.statements.last() matches StatementView::Final(inst) && {
                &&& inst.hints == builder.current_hints
                &&& inst.inc_ap == (ap_step(builder) == 1)
                &&& machine.advanced(state.ap_change).asserts(inst.body) <==> machine.has_value(
                    state.vars.map[res],
                    machine.cell(state.vars.map[dst]->Deref_0),
                )
            }
        }),
{
    let state = builder.main_state;
    let here = machine.advanced(state.ap_change);
    assert(here.wf());
    law_assertion_means_equality(here, state.cell(dst, true), state.value(res, true));
    law_state_values(state, machine, dst, 0);
    law_state_values(state, machine, res, machine.cell(state.cell(dst, false)));
}

/// `buffer_write_and_inc` is `get_ref_and_inc` and the assertion that the place holds `value`.
pub proof fn law_buffer_write_is_read_and_assert(builder: BuilderView, buffer: Var, value: Var)
    requires
        builder.can_buffer_write_and_inc(buffer, value),
    ensures
        builder.can_get_ref_and_inc(buffer),
        builder.buffer_location(buffer).can_assert_vars_eq(value, builder.next_var()),
        builder.buffer_write_and_inc(buffer, value) == builder.buffer_location(
            buffer,
        ).assert_vars_eq(value, builder.next_var()),
{
}

/// Whether the expression is a cell, or a cell with a constant that does not change it: plus or
/// minus 0, times or over 1.
pub open spec fn is_just_the_cell(expression: CellExpression<int>, cell: CellRef) -> bool {
    ||| expression == CellExpression::<int>::Deref(cell)
    ||| exists|op: CellOperator, imm: int| #[trigger]
        is_operation_with(expression, op, cell, imm) && {
            ||| (op == CellOperator::Add || op == CellOperator::Sub) && imm == 0
            ||| (op == CellOperator::Mul || op == CellOperator::Div) && imm == 1
        }
}

/// Whether the expression is `[cell] op imm`.
pub open spec fn is_operation_with(
    expression: CellExpression<int>,
    op: CellOperator,
    cell: CellRef,
    imm: int,
) -> bool {
    expression == CellExpression::BinOp { op, a: cell, b: DerefOrImmediate::Immediate(imm) }
}

/// `maybe_add_tempvar` makes a variable that is the cell of `var`, and adds no code, if and only if
/// the value of `var` is just a cell. Otherwise it makes a temporary variable, and asserts that it
/// has the value of `var`.
pub proof fn law_maybe_add_tempvar_is_added(builder: BuilderView, var: Var)
    requires
        builder.can_maybe_add_tempvar(var),
    ensures
        ({
            let value = builder.main_state.vars.map[var];
            let after = builder.maybe_add_tempvar(var);
            let made = after.main_state.vars.map[builder.next_var()];
            &&& made is Deref
            &&& if exists|cell: CellRef| is_just_the_cell(value, cell) {
                &&& is_just_the_cell(value, made->Deref_0)
                &&& adds_variable(builder, after, made)
                &&& after.main_state.allocated == builder.main_state.allocated
            } else {
                &&& builder.can_alloc_var()
                &&& after == builder.alloc_var(false).assert_vars_eq(builder.next_var(), var)
            }
        }),
{
    let value = builder.main_state.vars.map[var];
    if let CellExpression::Deref(cell) = value {
        assert(is_just_the_cell(value, cell));
    }
    if let CellExpression::BinOp { op, a, b: DerefOrImmediate::Immediate(imm) } = value {
        assert(is_operation_with(value, op, a, imm));
        assert((op == CellOperator::Add || op == CellOperator::Sub) && imm == 0 || (op
            == CellOperator::Mul || op == CellOperator::Div) && imm == 1 ==> is_just_the_cell(
            value,
            a,
        ));
    }
}

/// `add_ap` adds the instruction that increases AP by `size`, and counts it.
pub proof fn law_add_ap(builder: BuilderView, size: usize)
    requires
        builder.can_add_ap(size as int),
    ensures
        ({
            let after = builder.add_ap(size as int);
            &&& adds_statement(
                builder,
                after,
                StatementView::Final(
                    InstructionView {
                        body: InstructionBody::AddAp(
                            AddApInstruction { operand: ResOperand::Immediate(size as int) },
                        ),
                        inc_ap: false,
                        hints: builder.current_hints,
                    },
                ),
                one_step_later(builder.main_state, size as int),
            )
            &&& after.reachable
        }),
{
}

/// `increase_ap_change` counts cells as allocated and passed, and changes nothing else.
pub proof fn law_increase_ap_change(builder: BuilderView, amount: usize)
    ensures
        ({
            let after = builder.increase_ap_change(amount as int);
            &&& after.main_state.ap_change == builder.main_state.ap_change + amount
            &&& after.main_state.allocated == builder.main_state.allocated + amount
            &&& after.main_state.vars == builder.main_state.vars
            &&& after.main_state.steps == builder.main_state.steps
            &&& after == (BuilderView { main_state: after.main_state, ..builder })
        }),
{
}

/// `add_hint` makes the hint wait for the next instruction, after those that wait already, and
/// changes nothing else.
pub proof fn law_add_hint(builder: BuilderView, hint: Hint)
    ensures
        ({
            let after = builder.add_hint(hint);
            &&& after.current_hints == builder.current_hints.push(hint)
            &&& after == (BuilderView { current_hints: after.current_hints, ..builder })
        }),
{
}

/// A hint reads, for each of the inputs, an operand that has the value of the variable when the
/// machine gets there.
pub proof fn law_hint_reads_its_inputs(
    builder: BuilderView,
    machine: Machine,
    inputs: Seq<Var>,
    outputs: Seq<Var>,
    i: int,
    value: int,
)
    requires
        machine.wf(),
        builder.main_state.ap_change >= 0,
        builder.can_add_hint(inputs, outputs),
        0 <= i < inputs.len(),
    ensures
        ({
            let state = builder.main_state;
            let read = builder.hint_inputs(inputs);
            &&& read.len() == inputs.len()
            &&& machine.advanced(state.ap_change).operand(read[i]) == value <==> state.var_is(
                machine,
                inputs[i],
                value,
            )
        }),
{
    let state = builder.main_state;
    let here = machine.advanced(state.ap_change);
    assert(here.wf());
    assert(state.has_value(inputs[i], true));
    law_operand_is_value(here, state.value(inputs[i], true), value);
    law_state_values(state, machine, inputs[i], value);
}

/// A hint writes, for each of the outputs, the cell of the variable.
pub proof fn law_hint_writes_its_outputs(
    builder: BuilderView,
    machine: Machine,
    inputs: Seq<Var>,
    outputs: Seq<Var>,
    i: int,
)
    requires
        builder.main_state.ap_change >= 0,
        builder.can_add_hint(inputs, outputs),
        0 <= i < outputs.len(),
    ensures
        ({
            let state = builder.main_state;
            let written = builder.hint_outputs(outputs);
            &&& written.len() == outputs.len()
            &&& state.vars.map[outputs[i]] matches CellExpression::Deref(cell) && {
                &&& written[i].register == cell.register
                &&& written[i].offset == cell.offset - (if cell.register == Register::AP {
                    state.ap_change
                } else {
                    0
                })
                &&& machine.advanced(state.ap_change).cell(written[i]) == machine.cell(cell)
            }
        }),
{
    assert(builder.main_state.has_cell(outputs[i], true));
    law_state_values(builder.main_state, machine, outputs[i], 0);
}

/// `jump` adds an unconditional jump to `label`, which goes by the constant 0 until the label is
/// known. The label is reached in the state after the jump, and nothing is reached or known after
/// it.
pub proof fn law_jump(builder: BuilderView, label: Seq<char>)
    requires
        builder.can_jump(label),
    ensures
        ({
            let after = builder.jump(label);
            let reached = one_step_later(builder.main_state, ap_step(builder));
            &&& after.statements == builder.statements.push(
                StatementView::Jump(
                    label,
                    InstructionView {
                        body: InstructionBody::Jump(
                            JumpInstruction {
                                target: DerefOrImmediate::Immediate(0),
                                relative: true,
                            },
                        ),
                        inc_ap: ap_step(builder) == 1,
                        hints: builder.current_hints,
                    },
                ),
            )
            &&& reaches_label(builder.label_state, after.label_state, label, reached)
            &&& !after.reachable
            &&& after.current_hints.len() == 0
            &&& forall|var: Var| !after.main_state.vars.map.contains_key(var)
            &&& after.main_state.vars.keys.len() == 0
            &&& after.main_state.allocated == 0
            &&& after.main_state.ap_change == 0
            &&& after.main_state.steps == 0
            &&& after.read_labels == builder.read_labels
            &&& after.var_count == builder.var_count
        }),
{
    let after = builder.jump(label);
    assert(after.label_state.remove(label) =~= builder.label_state.remove(label));
}

/// `jump_nz` adds a jump to `label` on the condition that a cell is not 0, and that cell holds the
/// value of the variable `condition` when the machine gets there. The label is reached in the state
/// after the jump, which is also the state in which the code goes on.
pub proof fn law_jump_nz(
    builder: BuilderView,
    machine: Machine,
    condition: Var,
    label: Seq<char>,
    value: int,
)
    requires
        machine.wf(),
        builder.can_jump_nz(condition, label),
        builder.main_state.ap_change >= 0,
    ensures
        ({
            let state = builder.main_state;
            let after = builder.jump_nz(condition, label);
            let reached = one_step_later(state, ap_step(builder));
            &&& after.statements.drop_last() == builder.statements
            &&& after.statements.last() matches StatementView::Jump(target, inst) && {
                &&& target == label
                &&& inst.inc_ap == (ap_step(builder) == 1)
                &&& inst.hints == builder.current_hints
                &&& inst.body matches InstructionBody::Jnz(jnz) && {
                    &&& jnz.jump_offset == DerefOrImmediate::<int>::Immediate(0)
                    &&& machine.advanced(state.ap_change).cell(jnz.condition) == value
                        <==> state.var_is(machine, condition, value)
                }
            }
            &&& reaches_label(builder.label_state, after.label_state, label, reached)
            &&& after.main_state == reached
            &&& after.reachable
            &&& after.current_hints.len() == 0
            &&& after.read_labels == builder.read_labels
            &&& after.var_count == builder.var_count
        }),
{
    let state = builder.main_state;
    let after = builder.jump_nz(condition, label);
    assert(after.statements.drop_last() =~= builder.statements);
    assert(after.label_state.remove(label) =~= builder.label_state.remove(label));
    law_state_values(state, machine, condition, value);
}

/// `label` adds the label, reached from the statement before it if there is one. The code goes on
/// in the state of the label, which is read from then on. Nothing else changes.
pub proof fn law_label(builder: BuilderView, name: Seq<char>)
    requires
        builder.can_label(name),
    ensures
        ({
            let after = builder.label(name);
            &&& after.statements == builder.statements.push(StatementView::Label(name))
            &&& builder.reachable ==> reaches_label(
                builder.label_state,
                after.label_state,
                name,
                builder.main_state,
            )
            &&& !builder.reachable ==> after.label_state == builder.label_state
                && builder.label_state.contains_key(name)
            &&& after.main_state == after.label_state[name]
            &&& after.reachable
            &&& forall|label: Seq<char>| #[trigger]
                after.read_labels.contains(label) <==> builder.read_labels.contains(label)
                    || label == name
            &&& after.current_hints == builder.current_hints
            &&& after.var_count == builder.var_count
        }),
{
    let after = builder.label(name);
    assert(after.label_state.remove(name) =~= builder.label_state.remove(name));
}

/// `call` adds a call to `label`, which goes by the constant 0 until the label is known and does
/// not increment AP by itself. The label is reached in a state of its own, that of a new run; the
/// code goes on in a new run too.
pub proof fn law_call(builder: BuilderView, label: Seq<char>)
    requires
        builder.can_call(label),
    ensures
        ({
            let state = builder.main_state;
            let after = builder.call(label);
            let passed = builder.function_state();
            &&& after.statements == builder.statements.push(
                StatementView::Jump(
                    label,
                    InstructionView {
                        body: InstructionBody::Call(
                            CallInstruction {
                                target: DerefOrImmediate::Immediate(0),
                                relative: true,
                            },
                        ),
                        inc_ap: false,
                        hints: builder.current_hints,
                    },
                ),
            )
            &&& reaches_label(builder.label_state, after.label_state, label, passed)
            &&& passed.allocated == 0 && passed.ap_change == 0 && passed.steps == 0
            &&& after.main_state.allocated == 0 && after.main_state.ap_change == 0
            &&& after.main_state.steps == state.steps + 1
            &&& after.reachable
            &&& after.current_hints.len() == 0
            &&& after.read_labels == builder.read_labels
            &&& after.var_count == builder.var_count
        }),
{
    let after = builder.call(label);
    assert(after.label_state.remove(label) =~= builder.label_state.remove(label));
}

/// Where a variable that is an AP based cell is for a called function: two cells further away, for
/// the frame pointer and the return address, and addressed by FP. For the caller it is not known
/// any more; an FP based cell is, as it was.
pub proof fn law_call_moves_cells(builder: BuilderView, label: Seq<char>, var: Var)
    requires
        builder.can_call(label),
        builder.main_state.wf(),
        builder.main_state.vars.map.contains_key(var),
        builder.main_state.vars.map[var] is Deref,
    ensures
        ({
            let cell = builder.main_state.vars.map[var]->Deref_0;
            let passed = builder.function_state().vars.map;
            let kept = builder.call(label).main_state.vars.map;
            match cell.register {
                Register::AP => {
                    &&& passed.contains_key(var)
                    &&& passed[var] matches CellExpression::Deref(there) && there.register
                        == Register::FP && there.offset == cell.offset
                        - builder.main_state.ap_change - 2
                    &&& !kept.contains_key(var)
                },
                Register::FP => {
                    &&& !passed.contains_key(var)
                    &&& kept.contains_key(var)
                    &&& kept[var] == builder.main_state.vars.map[var]
                },
            }
        }),
{
}

/// The variables that a call passes and those that it keeps are in the order in which the caller
/// had them, and those that it keeps are what they were.
pub proof fn law_call_keeps_order(builder: BuilderView, label: Seq<char>, var: Var)
    requires
        builder.main_state.vars.wf(),
    ensures
        ({
            let before = builder.main_state.vars;
            let kept = builder.call(label).main_state.vars;
            &&& kept.map.contains_key(var) ==> before.map.contains_key(var) && kept.map[var]
                == before.map[var]
            &&& in_order_of(kept.keys, before.keys)
            &&& in_order_of(builder.function_state().vars.keys, before.keys)
        }),
{
    let vars = builder.main_state.vars;
    let ap_change = builder.main_state.ap_change + 2;
    law_select(
        vars,
        |value: CellExpression<int>| kept_by_caller(value),
        |value: CellExpression<int>| value,
        var,
    );
    law_select(
        vars,
        |value: CellExpression<int>| passed_to_function(value),
        |value: CellExpression<int>| function_value(value, ap_change),
        var,
    );
}

/// `rescope` begins a new run with the variables on the left, and changes neither the steps nor
/// anything but the state.
pub proof fn law_rescope_begins_a_run(builder: BuilderView, vars: Seq<(Var, Var)>)
    ensures
        ({
            let after = builder.rescope(vars);
            &&& after.main_state.ap_change == 0
            &&& after.main_state.allocated == 0
            &&& after.main_state.steps == builder.main_state.steps
            &&& after == (BuilderView { main_state: after.main_state, ..builder })
        }),
{
}

/// `ret` adds the instruction that returns, and nothing is reached after it.
pub proof fn law_ret(builder: BuilderView)
    requires
        builder.can_ret(),
    ensures
        ({
            let after = builder.ret();
            &&& adds_statement(
                builder,
                after,
                StatementView::Final(
                    InstructionView {
                        body: InstructionBody::Ret(RetInstruction {  }),
                        inc_ap: false,
                        hints: builder.current_hints,
                    },
                ),
                one_step_later(builder.main_state, 0),
            )
            &&& !after.reachable
        }),
{
}

/// `fail` adds an assertion that holds on no machine, and nothing is reached after it.
pub proof fn law_fail(builder: BuilderView, machine: Machine)
    requires
        machine.wf(),
        builder.can_emit(),
    ensures
        ({
            let after = builder.fail();
            &&& adds_statement(
                builder,
                after,
                after.statements.last(),
                one_step_later(builder.main_state, 0),
            )
            &&& !after.reachable
            &&& after.statements.last() matches StatementView::Final(inst) && {
                &&& inst.body is AssertEq
                &&& !machine.asserts(inst.body)
                &&& !inst.inc_ap
                &&& inst.hints == builder.current_hints
            }
        }),
{
    law_fail_never_holds(builder, machine);
}

} // verus!
