//! The statements of CASM source.

use vstd::prelude::*;

use crate::aux_info::AuxiliaryInfoView;
use crate::builder::statements::{
    deref_text, described, offset_deref_text, operation_desc, operation_text, operator_sign, record,
    unary_desc, Named,
};
use crate::cell_expression::{CellExpression, CellOperator};
use crate::laws::invariants::{law_action_wf, Action};
use crate::laws::operations::law_assert_vars_eq_is_added;
use crate::laws::values::{law_bin_op, law_double_deref};
use crate::model::{BuilderView, StatementView};
use crate::operand::Register;
use crate::semantics::Machine;
use crate::state::{StateView, Var};

verus! {

/// What the variables for the first `n` of `count` returned values are.
proof fn lemma_with_returned(builder: BuilderView, n: int, count: int)
    requires
        0 <= n <= count <= i16::MAX,
        0 <= builder.var_count,
        builder.var_count + count <= usize::MAX,
    ensures
        ({
            let after = builder.with_returned(n, count);
            &&& after == (BuilderView {
                main_state: StateView {
                    vars: after.main_state.vars,
                    ..builder.main_state
                },
                var_count: builder.var_count + n,
                ..builder
            })
            &&& forall|i: int|
                0 <= i < n ==> {
                    let var = #[trigger] Var::spec_new((builder.var_count + i) as usize);
                    &&& after.main_state.vars.map.contains_key(var)
                    &&& after.main_state.vars.map[var] matches CellExpression::Deref(cell)
                        && cell.register == Register::AP && cell.offset == i - count
                }
            &&& forall|var: Var|
                !(builder.var_count <= var.spec_index() < builder.var_count + n) ==> {
                    &&& #[trigger] after.main_state.vars.map.contains_key(var)
                        <==> builder.main_state.vars.map.contains_key(var)
                    &&& after.main_state.vars.map[var] == builder.main_state.vars.map[var]
                }
        }),
    decreases n,
{
    broadcast use Var::lemma_index;

    if n > 0 {
        lemma_with_returned(builder, n - 1, count);
        let before = builder.with_returned(n - 1, count);
        let after = builder.with_returned(n, count);
        let made = Var::spec_new((builder.var_count + n - 1) as usize);
        assert(before.next_var() == made);
        assert forall|i: int| 0 <= i < n implies {
            let var = #[trigger] Var::spec_new((builder.var_count + i) as usize);
            &&& after.main_state.vars.map.contains_key(var)
            &&& after.main_state.vars.map[var] matches CellExpression::Deref(cell) && cell.register
                == Register::AP && cell.offset == i - count
        } by {
            let var = Var::spec_new((builder.var_count + i) as usize);
            if i < n - 1 {
                assert(var.spec_index() != made.spec_index());
                assert(before.main_state.vars.map.contains_key(var));
            }
        }
        assert forall|var: Var|
            !(builder.var_count <= var.spec_index() < builder.var_count + n) implies {
            &&& #[trigger] after.main_state.vars.map.contains_key(var)
                <==> builder.main_state.vars.map.contains_key(var)
            &&& after.main_state.vars.map[var] == builder.main_state.vars.map[var]
        } by {
            assert(var != made);
            assert(before.main_state.vars.map.contains_key(var)
                <==> builder.main_state.vars.map.contains_key(var));
        }
    }
}

/// The values that a function returned are the last cells before AP, in order: of `count` values
/// the one number `i` is in the cell `[ap + i - count]`, and so the last one is in `[ap - 1]`. The
/// variables that were known before keep their values, and nothing else changes.
pub proof fn law_returned_values_are_before_ap(
    builder: BuilderView,
    machine: Machine,
    count: int,
    i: int,
    other: Var,
)
    requires
        builder.can_return(count),
        0 <= builder.var_count,
        0 <= i < count,
        other.spec_index() < builder.var_count,
    ensures
        ({
            let after = builder.with_returned(count, count);
            let vars = after.main_state.vars.map;
            let var = Var::spec_new((builder.var_count + i) as usize);
            &&& vars.contains_key(var)
            &&& vars[var] matches CellExpression::Deref(cell) && {
                &&& cell.register == Register::AP
                &&& cell.offset == i - count
                &&& machine.cell(cell) == machine.at(machine.ap + i - count)
                &&& i == count - 1 ==> cell.offset == -1
            }
            &&& i > 0 ==> vars[var]->Deref_0.offset == vars[Var::spec_new(
                (builder.var_count + i - 1) as usize,
            )]->Deref_0.offset + 1
            &&& vars.contains_key(other) <==> builder.main_state.vars.map.contains_key(other)
            &&& vars[other] == builder.main_state.vars.map[other]
            &&& after.var_count == builder.var_count + count
            &&& after.statements == builder.statements
            &&& after.label_state == builder.label_state
            &&& after.read_labels == builder.read_labels
            &&& after.current_hints == builder.current_hints
            &&& after.reachable == builder.reachable
            &&& after.main_state.ap_change == builder.main_state.ap_change
            &&& after.main_state.allocated == builder.main_state.allocated
            &&& after.main_state.steps == builder.main_state.steps
        }),
{
    lemma_with_returned(builder, count, count);
    let before = Var::spec_new((builder.var_count + i - 1) as usize);
    assert(i > 0 ==> before == Var::spec_new((builder.var_count + (i - 1)) as usize));
    let vars = builder.with_returned(count, count).main_state.vars.map;
    assert(vars.contains_key(other) <==> builder.main_state.vars.map.contains_key(other));
}

/// A call that returns nothing changes nothing after the call.
pub proof fn law_nothing_is_returned(builder: BuilderView)
    ensures
        builder.with_returned(0, 0) == builder,
{
}

/// The operations have their usual signs.
pub proof fn law_operator_signs()
    ensures
        operator_sign(CellOperator::Add) == seq!['+'],
        operator_sign(CellOperator::Sub) == seq!['-'],
        operator_sign(CellOperator::Mul) == seq!['*'],
        operator_sign(CellOperator::Div) == seq!['/'],
{
    reveal_strlit("+");
    reveal_strlit("-");
    reveal_strlit("*");
    reveal_strlit("/");
}

/// The text of an operation is its operands with its sign between them, and a space on either side.
pub proof fn law_operation_text(a: Seq<char>, op: CellOperator, b: Seq<char>)
    ensures
        ({
            let text = operation_text(a, op, b);
            &&& text.len() == a.len() + 3 + b.len()
            &&& text.take(a.len() as int) == a
            &&& text.skip(a.len() as int + 3) == b
            &&& text[a.len() as int] == ' ' && text[a.len() as int + 2] == ' '
            &&& text[a.len() as int + 1] == match op {
                CellOperator::Add => '+',
                CellOperator::Sub => '-',
                CellOperator::Mul => '*',
                CellOperator::Div => '/',
            }
        }),
{
    reveal_strlit(" ");
    law_operator_signs();
    let text = operation_text(a, op, b);
    assert(text.take(a.len() as int) =~= a);
    assert(text.skip(a.len() as int + 3) =~= b);
}

/// The texts of what stands in memory.
pub proof fn law_deref_texts(buffer: Seq<char>, offset: Seq<char>)
    ensures
        deref_text(buffer) == seq!['m', 'e', 'm', ' '] + buffer,
        offset_deref_text(buffer, offset) == seq!['m', 'e', 'm', ' ', '('] + buffer + seq![
            ' ',
            '+',
            ' ',
            '(',
        ] + offset + seq![')', ')'],
{
    reveal_strlit("mem ");
    reveal_strlit("mem (");
    reveal_strlit(" + (");
    reveal_strlit("))");
    assert(deref_text(buffer) =~= seq!['m', 'e', 'm', ' '] + buffer);
    assert(offset_deref_text(buffer, offset) =~= seq!['m', 'e', 'm', ' ', '('] + buffer + seq![
        ' ',
        '+',
        ' ',
        '(',
    ] + offset + seq![')', ')']);
}

/// A variable is described by its name and the value that it was given.
pub proof fn law_descriptions(
    state: StateView,
    text: Seq<char>,
    a: Named<'_>,
    op: CellOperator,
    sign: Seq<char>,
    b: Named<'_>,
)
    ensures
        described(state, a).name == a.name@,
        described(state, a).var_expr == state.vars.map[a.var],
        unary_desc(state, text, a, sign).expr == text,
        unary_desc(state, text, a, sign).var_a == described(state, a),
        unary_desc(state, text, a, sign).op == sign,
        unary_desc(state, text, a, sign).var_b is None,
        operation_desc(state, a, op, b).expr == operation_text(a.name@, op, b.name@),
        operation_desc(state, a, op, b).var_a == described(state, a),
        operation_desc(state, a, op, b).op == operator_sign(op),
        operation_desc(state, a, op, b).var_b == Some(described(state, b)),
{
}

/// Something is recorded if and only if there is information to record it in.
pub proof fn law_record(
    aux: Option<AuxiliaryInfoView>,
    change: spec_fn(AuxiliaryInfoView) -> AuxiliaryInfoView,
)
    ensures
        record(aux, change) is Some <==> aux is Some,
        aux matches Some(info) ==> record(aux, change) == Some(change(info)),
{
}

/// `assert dst = a op b` adds one assertion, which holds, when the machine gets there, if and only
/// if the cell `dst` holds what the operation makes of the values of `a` and `b`. A new variable
/// stands for the operation; the others keep their values.
pub proof fn law_assert_op(
    builder: BuilderView,
    machine: Machine,
    dst: Var,
    a: Var,
    op: CellOperator,
    b: Var,
    x: int,
    y: int,
)
    requires
        machine.wf(),
        builder.can_assert_op(dst, a, op, b),
        builder.wf(),
        builder.main_state.var_is(machine, a, x),
        builder.main_state.var_is(machine, b, y),
    ensures
        ({
            let state = builder.main_state;
            let after = builder.bin_op(op, a, b).assert_vars_eq(dst, builder.next_var());
            &&& after.statements.drop_last() == builder.statements
            &&& after.statements.last() matches StatementView::Final(inst) && (machine.advanced(
                state.ap_change,
            ).asserts(inst.body) <==> machine.computes(
                op,
                x,
                y,
                machine.cell(state.vars.map[dst]->Deref_0),
            ))
            &&& after.var_count == builder.var_count + 1
            &&& after.label_state == builder.label_state
            &&& after.read_labels == builder.read_labels
        }),
{
    let made = builder.bin_op(op, a, b);
    let held = machine.cell(builder.main_state.vars.map[dst]->Deref_0);
    law_action_wf(builder, Action::BinOp(op, a, b));
    law_bin_op(builder, machine, op, a, b, x, y, held);
    law_assert_vars_eq_is_added(made, machine, dst, builder.next_var());
    assert(made.assert_vars_eq(dst, builder.next_var()).statements.drop_last()
        =~= builder.statements);
}

/// `assert dst = buffer[offset]` adds one assertion, which holds, when the machine gets there, if
/// and only if the cell `dst` holds what stands in memory `offset` after the address that is the
/// value of `buffer`. A new variable stands for the place; the others keep their values.
pub proof fn law_assert_at(
    builder: BuilderView,
    machine: Machine,
    dst: Var,
    buffer: Var,
    offset: i16,
    address: int,
)
    requires
        machine.wf(),
        builder.can_assert_at(dst, buffer, offset as int),
        builder.wf(),
        builder.main_state.var_is(machine, buffer, address),
    ensures
        ({
            let state = builder.main_state;
            let after = builder.double_deref(buffer, offset as int).assert_vars_eq(
                dst,
                builder.next_var(),
            );
            &&& after.statements.drop_last() == builder.statements
            &&& after.statements.last() matches StatementView::Final(inst) && (machine.advanced(
                state.ap_change,
            ).asserts(inst.body) <==> machine.cell(state.vars.map[dst]->Deref_0) == machine.at(
                address + offset,
            ))
            &&& after.var_count == builder.var_count + 1
            &&& after.label_state == builder.label_state
            &&& after.read_labels == builder.read_labels
        }),
{
    let made = builder.double_deref(buffer, offset as int);
    let held = machine.cell(builder.main_state.vars.map[dst]->Deref_0);
    law_action_wf(builder, Action::DoubleDeref(buffer, offset));
    law_double_deref(builder, machine, buffer, offset as int, address, held);
    law_assert_vars_eq_is_added(made, machine, dst, builder.next_var());
    assert(made.assert_vars_eq(dst, builder.next_var()).statements.drop_last()
        =~= builder.statements);
}

} // verus!
