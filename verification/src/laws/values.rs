//! The values of the variables: what the instructions that a builder adds do with them.

use vstd::arithmetic::div_mod::{
    lemma_add_mod_noop, lemma_mod_self_0, lemma_small_mod, lemma_sub_mod_noop,
};
use vstd::prelude::*;

use crate::cell_expression::{CellExpression, CellOperator};
use crate::instructions::{AssertEqInstruction, InstructionBody};
use crate::laws::invariants::{law_action_wf, Action};
use crate::model::{
    assert_eq_body, function_value, pointer, rescoped, trivial_cell, BuilderView, StatementView,
};
use crate::operand::{
    BinOpOperand, CellRef, DerefOrImmediate, Operation, Register, ResOperand,
};
use crate::semantics::Machine;
use crate::state::{StateView, Var};

verus! {

impl StateView {
    /// Whether `var` has the value `value`, on a machine with the AP of the beginning of the run.
    pub open spec fn var_is(self, machine: Machine, var: Var, value: int) -> bool {
        &&& self.vars.map.contains_key(var)
        &&& machine.has_value(self.vars.map[var], value)
    }
}

/// A cell holds the same once AP has grown, if it is addressed accordingly.
proof fn lemma_cell_ap_changed(machine: Machine, cell: CellRef, ap_change: int)
    requires
        cell.can_apply_ap_change(ap_change),
        0 <= ap_change,
    ensures
        machine.advanced(ap_change).cell(cell.ap_changed(ap_change)) == machine.cell(cell),
{
}

/// Writing an expression in relation to the current AP does not change its value.
pub proof fn law_ap_changed_keeps_value(
    machine: Machine,
    expression: CellExpression<int>,
    ap_change: int,
    value: int,
)
    requires
        expression.can_apply_ap_change(ap_change),
        0 <= ap_change,
    ensures
        machine.advanced(ap_change).has_value(expression.ap_changed(ap_change), value)
            == machine.has_value(expression, value),
{
    match expression {
        CellExpression::Deref(cell) => lemma_cell_ap_changed(machine, cell, ap_change),
        CellExpression::DoubleDeref(cell, _) => lemma_cell_ap_changed(machine, cell, ap_change),
        CellExpression::Immediate(_) => {},
        CellExpression::BinOp { op: _, a, b } => {
            lemma_cell_ap_changed(machine, a, ap_change);
            if let DerefOrImmediate::Deref(cell) = b {
                lemma_cell_ap_changed(machine, cell, ap_change);
            }
        },
    }
}

/// An expression is a right hand side of an instruction unless it is a difference or a quotient,
/// and then the right hand side has its value and no other.
pub proof fn law_operand_is_value(machine: Machine, expression: CellExpression<int>, value: int)
    requires
        machine.wf(),
    ensures
        expression.as_res_operand() is None <==> (expression matches CellExpression::BinOp { op, .. }
            && (op == CellOperator::Sub || op == CellOperator::Div)),
        expression.as_res_operand() matches Some(operand) ==> (machine.has_value(expression, value)
            <==> machine.operand(operand) == value),
{
}

/// The instruction that asserts that a cell holds an expression holds if and only if what is in the
/// cell is the value of the expression.
pub proof fn law_assertion_means_equality(
    machine: Machine,
    dst: CellRef,
    res: CellExpression<int>,
)
    requires
        machine.wf(),
    ensures
        machine.asserts(assert_eq_body(dst, res)) == machine.has_value(res, machine.cell(dst)),
{
    if let CellExpression::BinOp { op: CellOperator::Sub, a, b } = res {
        let (x, y, z) = (machine.cell(a), machine.cell_or_imm(b), machine.cell(dst));
        lemma_difference(x, y, z, machine.modulus);
    }
}

/// The assertions themselves: a cell, a place in memory, a constant, a sum and a product are
/// asserted as they are, a difference and a quotient turned round.
pub proof fn law_assertion_forms(
    dst: CellRef,
    a: CellRef,
    b: DerefOrImmediate<int>,
    offset: i16,
    imm: int,
)
    ensures
        assert_eq_body(dst, CellExpression::Deref(a)) == asserted(dst, ResOperand::Deref(a)),
        assert_eq_body(dst, CellExpression::DoubleDeref(a, offset)) == asserted(
            dst,
            ResOperand::DoubleDeref(a, offset),
        ),
        assert_eq_body(dst, CellExpression::Immediate(imm)) == asserted(
            dst,
            ResOperand::Immediate(imm),
        ),
        assert_eq_body(dst, CellExpression::BinOp { op: CellOperator::Add, a, b }) == asserted(
            dst,
            ResOperand::BinOp(BinOpOperand { op: Operation::Add, a, b }),
        ),
        assert_eq_body(dst, CellExpression::BinOp { op: CellOperator::Mul, a, b }) == asserted(
            dst,
            ResOperand::BinOp(BinOpOperand { op: Operation::Mul, a, b }),
        ),
        assert_eq_body(dst, CellExpression::BinOp { op: CellOperator::Sub, a, b }) == asserted(
            a,
            ResOperand::BinOp(BinOpOperand { op: Operation::Add, a: dst, b }),
        ),
        assert_eq_body(dst, CellExpression::BinOp { op: CellOperator::Div, a, b }) == asserted(
            a,
            ResOperand::BinOp(BinOpOperand { op: Operation::Mul, a: dst, b }),
        ),
{
}

/// The instruction that asserts `a = b`.
pub open spec fn asserted(a: CellRef, b: ResOperand<int>) -> InstructionBody<int> {
    InstructionBody::AssertEq(AssertEqInstruction { a, b })
}

/// `z` is `x - y` if and only if `x` is `z + y`.
proof fn lemma_difference(x: int, y: int, z: int, modulus: int)
    requires
        0 <= x < modulus,
        0 <= z < modulus,
    ensures
        z == (x - y) % modulus <==> x == (z + y) % modulus,
{
    lemma_small_mod(x as nat, modulus as nat);
    lemma_small_mod(z as nat, modulus as nat);
    lemma_sub_mod_noop(x, y, modulus);
    lemma_add_mod_noop(z, y, modulus);
    if z == (x - y) % modulus {
        lemma_add_mod_noop(x - y, y, modulus);
        lemma_add_mod_noop((x - y) % modulus, y, modulus);
    }
    if x == (z + y) % modulus {
        lemma_sub_mod_noop(z + y, y, modulus);
        lemma_sub_mod_noop((z + y) % modulus, y, modulus);
    }
}

/// `assert_vars_eq` adds an assertion that holds, when the machine gets there, if and only if `dst`
/// is a cell that holds the value of `res`.
pub proof fn law_assert_vars_eq(builder: BuilderView, machine: Machine, dst: Var, res: Var)
    requires
        machine.wf(),
        builder.can_assert_vars_eq(dst, res),
        builder.wf(),
    ensures
        ({
            let state = builder.main_state;
            let after = builder.assert_vars_eq(dst, res);
            &&& after.statements.drop_last() == builder.statements
            &&& after.statements.last() matches StatementView::Final(inst) && (machine.advanced(
                state.ap_change,
            ).asserts(inst.body) <==> state.var_is(
                machine,
                res,
                machine.cell(state.cell(dst, false)),
            ))
        }),
{
    let state = builder.main_state;
    let after = builder.assert_vars_eq(dst, res);
    assert(after.statements.drop_last() =~= builder.statements);
    let here = machine.advanced(state.ap_change);
    assert(here.wf());
    law_assertion_means_equality(here, state.cell(dst, true), state.value(res, true));
    lemma_cell_ap_changed(machine, state.cell(dst, false), state.ap_change);
    law_ap_changed_keeps_value(
        machine,
        state.value(res, false),
        state.ap_change,
        machine.cell(state.cell(dst, false)),
    );
}

/// `fail` adds an assertion that never holds.
pub proof fn law_fail_never_holds(builder: BuilderView, machine: Machine)
    requires
        machine.wf(),
    ensures
        builder.fail().statements.last() matches StatementView::Final(inst) && inst.body
            is AssertEq && !machine.asserts(inst.body),
        !builder.fail().reachable,
{
    let x = machine.cell(CellRef { register: Register::FP, offset: (-1) as i16 });
    lemma_small_mod(1, machine.modulus as nat);
    if x + 1 < machine.modulus {
        lemma_small_mod((x + 1) as nat, machine.modulus as nat);
    } else {
        lemma_mod_self_0(machine.modulus);
    }
}

/// An expression that amounts to a cell has the value of that cell and no other.
proof fn lemma_trivial_cell(machine: Machine, expression: CellExpression<int>, value: int)
    requires
        machine.wf(),
        trivial_cell(expression) is Some,
    ensures
        machine.has_value(expression, value) == (value == machine.cell(
            trivial_cell(expression).unwrap(),
        )),
{
    let x = machine.cell(trivial_cell(expression).unwrap());
    lemma_small_mod(x as nat, machine.modulus as nat);
    lemma_small_mod(0, machine.modulus as nat);
    lemma_small_mod(1, machine.modulus as nat);
    assert(x * 1 == x && value * 1 == value && x - 0 == x);
    if machine.is_number(value) {
        lemma_small_mod(value as nat, machine.modulus as nat);
    }
}

/// `maybe_add_tempvar` gives a variable that is a cell. If the value of `var` amounts to a cell,
/// nothing is asserted and the new variable is that cell; otherwise the last instruction asserts
/// that the new variable has the value of `var`, and holds if and only if it does.
pub proof fn law_maybe_add_tempvar(builder: BuilderView, machine: Machine, var: Var)
    requires
        machine.wf(),
        builder.can_maybe_add_tempvar(var),
        builder.wf(),
        var != builder.next_var(),
    ensures
        ({
            let state = builder.main_state;
            let after = builder.maybe_add_tempvar(var);
            let temp = builder.next_var();
            let held = machine.cell(after.main_state.cell(temp, false));
            &&& after.main_state.has_cell(temp, false)
            &&& if trivial_cell(state.value(var, false)) is Some {
                &&& after.statements == builder.statements
                &&& forall|value: int| #[trigger]
                    state.var_is(machine, var, value) <==> value == held
            } else {
                &&& after.statements.drop_last() == builder.statements
                &&& after.statements.last() matches StatementView::Final(inst)
                    && (machine.advanced(state.ap_change).asserts(inst.body) <==> state.var_is(
                    machine,
                    var,
                    held,
                ))
            }
        }),
{
    let state = builder.main_state;
    let temp = builder.next_var();
    if trivial_cell(state.value(var, false)) is Some {
        assert forall|value: int| #[trigger] state.var_is(machine, var, value) <==> value
            == machine.cell(trivial_cell(state.value(var, false)).unwrap()) by {
            lemma_trivial_cell(machine, state.value(var, false), value);
        }
    } else {
        law_action_wf(builder, Action::AllocVar(false));
        law_assert_vars_eq(builder.alloc_var(false), machine, temp, var);
    }
}

/// `bin_op` gives a variable whose value is `lhs op rhs`.
pub proof fn law_bin_op(
    builder: BuilderView,
    machine: Machine,
    op: CellOperator,
    lhs: Var,
    rhs: Var,
    a: int,
    b: int,
    value: int,
)
    requires
        machine.wf(),
        builder.can_bin_op(lhs, rhs),
        builder.main_state.var_is(machine, lhs, a),
        builder.main_state.var_is(machine, rhs, b),
        machine.is_number(value),
    ensures
        builder.bin_op(op, lhs, rhs).main_state.var_is(machine, builder.next_var(), value)
            <==> machine.computes(op, a, b, value),
{
}

/// A pointer has one value: its offset from the address that its cell holds.
proof fn lemma_pointer(machine: Machine, expression: CellExpression<int>, value: int)
    requires
        machine.wf(),
        pointer(expression) is Some,
        machine.has_value(expression, value),
    ensures
        value == (machine.cell(pointer(expression).unwrap().0) + pointer(expression).unwrap().1)
            % machine.modulus,
{
    let (cell, offset) = pointer(expression).unwrap();
    lemma_small_mod(machine.cell(cell) as nat, machine.modulus as nat);
    lemma_add_mod_noop(machine.cell(cell), offset, machine.modulus);
}

/// `double_deref` gives a variable whose value stands in memory `offset` after the address that is
/// the value of `var`.
pub proof fn law_double_deref(
    builder: BuilderView,
    machine: Machine,
    var: Var,
    offset: int,
    address: int,
    value: int,
)
    requires
        machine.wf(),
        builder.can_double_deref(var, offset),
        builder.main_state.var_is(machine, var, address),
    ensures
        builder.double_deref(var, offset).main_state.var_is(machine, builder.next_var(), value)
            <==> value == machine.at(address + offset),
{
    let (cell, var_offset) = builder.pointer(var);
    let base = machine.cell(cell);
    lemma_pointer(machine, builder.main_state.value(var, false), address);
    assert((base + (var_offset + offset)) % machine.modulus == (address + offset)
        % machine.modulus) by {
        lemma_add_mod_noop(base + var_offset, offset, machine.modulus);
        lemma_add_mod_noop(address, offset, machine.modulus);
        lemma_small_mod(address as nat, machine.modulus as nat);
    }
}

/// Taking a place of a buffer gives a variable for what stands in memory at the address that is the
/// value of `buffer`, and moves `buffer` to the next address.
pub proof fn law_buffer_location(
    builder: BuilderView,
    machine: Machine,
    buffer: Var,
    address: int,
    value: int,
)
    requires
        machine.wf(),
        builder.can_get_ref_and_inc(buffer),
        builder.main_state.var_is(machine, buffer, address),
        buffer != builder.next_var(),
    ensures
        ({
            let after = builder.buffer_location(buffer).main_state;
            &&& after.var_is(machine, builder.next_var(), value) <==> value == machine.at(address)
            &&& after.var_is(machine, buffer, value) <==> value == (address + 1) % machine.modulus
        }),
{
    let (cell, offset) = builder.pointer(buffer);
    let base = machine.cell(cell);
    lemma_pointer(machine, builder.main_state.value(buffer, false), address);
    lemma_small_mod(address as nat, machine.modulus as nat);
    assert((base + (offset + 1)) % machine.modulus == (address + 1) % machine.modulus) by {
        lemma_add_mod_noop(base + offset, 1, machine.modulus);
        lemma_add_mod_noop(address, 1, machine.modulus);
    }
    lemma_small_mod(base as nat, machine.modulus as nat);
    lemma_add_mod_noop(base, offset + 1, machine.modulus);
}

/// `buffer_write_and_inc` adds an assertion that holds, when the machine gets there, if and only if
/// the memory at the address that was the value of `buffer` holds what the cell `value` holds; and
/// it moves `buffer` to the next address.
pub proof fn law_buffer_write_and_inc(
    builder: BuilderView,
    machine: Machine,
    buffer: Var,
    value: Var,
    address: int,
)
    requires
        machine.wf(),
        builder.can_buffer_write_and_inc(buffer, value),
        builder.wf(),
        builder.main_state.var_is(machine, buffer, address),
        buffer != builder.next_var(),
    ensures
        ({
            let state = builder.main_state;
            let after = builder.buffer_write_and_inc(buffer, value);
            &&& after.statements.drop_last() == builder.statements
            &&& after.statements.last() matches StatementView::Final(inst) && (machine.advanced(
                state.ap_change,
            ).asserts(inst.body) <==> machine.at(address) == machine.cell(state.cell(value, false)))
            &&& after.main_state.var_is(machine, buffer, (address + 1) % machine.modulus)
        }),
{
    let state = builder.main_state;
    let moved = builder.buffer_location(buffer);
    let held = machine.cell(state.cell(value, false));
    law_action_wf(builder, Action::GetRefAndInc(buffer));
    law_buffer_location(builder, machine, buffer, address, held);
    law_buffer_location(builder, machine, buffer, address, (address + 1) % machine.modulus);
    law_assert_vars_eq(moved, machine, value, builder.next_var());
}

/// The last place of `var` on the left of `vars`, with what stands on its right.
pub open spec fn last_source(vars: Seq<(Var, Var)>, var: Var) -> Option<Var>
    decreases vars.len(),
{
    if vars.len() == 0 {
        None
    } else if vars.last().0 == var {
        Some(vars.last().1)
    } else {
        last_source(vars.drop_last(), var)
    }
}

/// What `rescoped` knows of one variable.
proof fn lemma_rescoped(state: StateView, vars: Seq<(Var, Var)>, var: Var)
    ensures
        match last_source(vars, var) {
            Some(source) => rescoped(state, vars).map.contains_key(var) && rescoped(
                state,
                vars,
            ).map[var] == state.value(source, true) && exists|i: int|
                0 <= i < vars.len() && #[trigger] vars[i] == (var, source),
            None => !rescoped(state, vars).map.contains_key(var),
        },
    decreases vars.len(),
{
    if vars.len() > 0 {
        lemma_rescoped(state, vars.drop_last(), var);
    }
}

/// `rescope` drops the variables that are not on the left of `vars`. Those on the left have, in the
/// run that begins here, the values that the variables on their right had in the one that ends.
pub proof fn law_rescope(
    builder: BuilderView,
    machine: Machine,
    vars: Seq<(Var, Var)>,
    var: Var,
    value: int,
)
    requires
        builder.can_rescope(vars),
        builder.wf(),
    ensures
        ({
            let state = builder.main_state;
            let after = builder.rescope(vars).main_state;
            let here = machine.advanced(state.ap_change);
            match last_source(vars, var) {
                Some(source) => after.var_is(here, var, value) <==> state.var_is(
                    machine,
                    source,
                    value,
                ),
                None => !after.vars.map.contains_key(var),
            }
        }),
{
    let state = builder.main_state;
    lemma_rescoped(state, vars, var);
    if let Some(source) = last_source(vars, var) {
        law_ap_changed_keeps_value(machine, state.value(source, false), state.ap_change, value);
    }
}

/// If each variable on the left is there once, they come in the order in which they are there.
pub proof fn law_rescope_keeps_order(builder: BuilderView, vars: Seq<(Var, Var)>)
    requires
        vars.map_values(|pair: (Var, Var)| pair.0).no_duplicates(),
    ensures
        builder.rescope(vars).main_state.vars.keys == vars.map_values(|pair: (Var, Var)| pair.0),
{
    lemma_rescoped_keys(builder.main_state, vars);
}

/// The keys of what is rescoped.
proof fn lemma_rescoped_keys(state: StateView, vars: Seq<(Var, Var)>)
    requires
        vars.map_values(|pair: (Var, Var)| pair.0).no_duplicates(),
    ensures
        rescoped(state, vars).keys == vars.map_values(|pair: (Var, Var)| pair.0),
        forall|var: Var| #[trigger]
            rescoped(state, vars).map.contains_key(var) ==> vars.map_values(
                |pair: (Var, Var)| pair.0,
            ).contains(var),
    decreases vars.len(),
{
    let lefts = vars.map_values(|pair: (Var, Var)| pair.0);
    if vars.len() > 0 {
        let rest = vars.drop_last();
        let before = rest.map_values(|pair: (Var, Var)| pair.0);
        assert(lefts =~= before.push(vars.last().0));
        assert(before =~= lefts.drop_last());
        lemma_rescoped_keys(state, rest);
        assert(!before.contains(vars.last().0)) by {
            if before.contains(vars.last().0) {
                assert(lefts[before.index_of(vars.last().0)] == lefts[lefts.len() - 1]);
            }
        }
        assert forall|var: Var| #[trigger] rescoped(state, vars).map.contains_key(var) implies
            lefts.contains(var) by {
            assert(lefts[lefts.len() - 1] == vars.last().0);
            if rescoped(state, rest).map.contains_key(var) {
                assert(lefts[before.index_of(var)] == var);
            }
        }
    } else {
        assert(rescoped(state, vars).keys =~= lefts);
    }
}

/// Whether the expression reads a cell that is addressed by FP.
pub open spec fn reads_fp(expression: CellExpression<int>) -> bool {
    match expression {
        CellExpression::Deref(cell) => cell.register == Register::FP,
        CellExpression::DoubleDeref(cell, _) => cell.register == Register::FP,
        CellExpression::Immediate(_) => false,
        CellExpression::BinOp { op: _, a, b } => a.register == Register::FP || (
        b matches DerefOrImmediate::Deref(cell) && cell.register == Register::FP),
    }
}

/// Whether the expression reads a cell that is addressed by AP.
pub open spec fn reads_ap(expression: CellExpression<int>) -> bool {
    match expression {
        CellExpression::Deref(cell) => cell.register == Register::AP,
        CellExpression::DoubleDeref(cell, _) => cell.register == Register::AP,
        CellExpression::Immediate(_) => false,
        CellExpression::BinOp { op: _, a, b } => a.register == Register::AP || (
        b matches DerefOrImmediate::Deref(cell) && cell.register == Register::AP),
    }
}

/// Whether the expression is an operation of a cell and a constant.
pub open spec fn is_cell_with_constant(expression: CellExpression<int>) -> bool {
    expression matches CellExpression::BinOp { b: DerefOrImmediate::Immediate(_), .. }
}

/// `call` passes to the function the variables that read no cell addressed by FP: there they have
/// the values that they have for the caller. Of the others it passes those that are a cell with a
/// constant, as they are written, and no more.
pub proof fn law_call_passes_values(builder: BuilderView, machine: Machine, var: Var, value: int)
    requires
        builder.can_pass_vars(),
        builder.main_state.wf(),
    ensures
        ({
            let state = builder.main_state;
            let expression = state.vars.map[var];
            let function = machine.advanced(state.ap_change).called();
            let passed = builder.function_state();
            &&& passed.vars.map.contains_key(var) <==> state.vars.map.contains_key(var) && (
            !reads_fp(expression) || is_cell_with_constant(expression))
            &&& passed.vars.map.contains_key(var) && reads_fp(expression)
                ==> passed.vars.map[var] == expression
            &&& passed.vars.map.contains_key(var) && !reads_fp(expression) ==> (passed.var_is(
                function,
                var,
                value,
            ) <==> state.var_is(machine, var, value))
        }),
{
    let state = builder.main_state;
    let expression = state.vars.map[var];
    let ap_change = state.ap_change + 2;
    if state.vars.map.contains_key(var) && !reads_fp(expression) {
        law_ap_changed_keeps_value(machine, expression, ap_change, value);
        let here = machine.advanced(ap_change);
        let function = machine.advanced(state.ap_change).called();
        assert(function.has_value(function_value(expression, ap_change), value) == here.has_value(
            expression.ap_changed(ap_change),
            value,
        ));
    }
}

/// `call` drops from the caller every variable that reads a cell addressed by AP, and keeps the
/// others: they have the same values after the call, wherever AP then is.
pub proof fn law_call_keeps_values(
    builder: BuilderView,
    machine: Machine,
    label: Seq<char>,
    var: Var,
    ap: int,
    value: int,
)
    ensures
        ({
            let state = builder.main_state;
            let after = builder.call(label).main_state;
            &&& after.vars.map.contains_key(var) <==> state.vars.map.contains_key(var)
                && !reads_ap(state.vars.map[var])
            &&& after.vars.map.contains_key(var) ==> (after.var_is(machine.with_ap(ap), var, value)
                <==> state.var_is(machine, var, value))
        }),
{
}

} // verus!
