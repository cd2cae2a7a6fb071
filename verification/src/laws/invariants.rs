//! What every operation keeps.

use vstd::prelude::*;

use crate::cell_expression::{CellExpression, CellOperator};
use crate::hints::Hint;
use crate::instructions::InstructionBody;
use crate::model::{
    function_value, kept_by_caller, passed_to_function, rescoped, trivial_cell, BuilderView,
    StatementView,
};
use crate::state::{StateView, Var};

verus! {

/// An operation on a builder.
pub enum Action {
    AddVar(CellExpression<int>),
    AllocVar(bool),
    DuplicateVar(Var),
    AddHint(Hint),
    AssertVarsEq(Var, Var),
    BufferWriteAndInc(Var, Var),
    MaybeAddTempvar(Var),
    GetRefAndInc(Var),
    AddAp(usize),
    IncreaseApChange(usize),
    BinOp(CellOperator, Var, Var),
    DoubleDeref(Var, i16),
    Jump(Seq<char>),
    JumpNz(Var, Seq<char>),
    Label(Seq<char>),
    Rescope(Seq<(Var, Var)>),
    Call(Seq<char>),
    Ret,
    ResetSteps,
    Fail,
}

impl Action {
    /// Whether the builder can take the operation.
    pub open spec fn can(self, builder: BuilderView) -> bool {
        match self {
            Action::AddVar(_) => builder.can_add_var(),
            Action::AllocVar(_) => builder.can_alloc_var(),
            Action::DuplicateVar(var) => builder.can_duplicate_var(var),
            Action::AddHint(_) => true,
            Action::AssertVarsEq(dst, res) => builder.can_assert_vars_eq(dst, res),
            Action::BufferWriteAndInc(buffer, value) => builder.can_buffer_write_and_inc(
                buffer,
                value,
            ),
            Action::MaybeAddTempvar(var) => builder.can_maybe_add_tempvar(var),
            Action::GetRefAndInc(buffer) => builder.can_get_ref_and_inc(buffer),
            Action::AddAp(size) => builder.can_add_ap(size as int),
            Action::IncreaseApChange(amount) => builder.can_increase_ap_change(amount as int),
            Action::BinOp(_, lhs, rhs) => builder.can_bin_op(lhs, rhs),
            Action::DoubleDeref(var, offset) => builder.can_double_deref(var, offset as int),
            Action::Jump(label) => builder.can_jump(label),
            Action::JumpNz(condition, label) => builder.can_jump_nz(condition, label),
            Action::Label(name) => builder.can_label(name),
            Action::Rescope(vars) => builder.can_rescope(vars),
            Action::Call(label) => builder.can_call(label),
            Action::Ret => builder.can_ret(),
            Action::ResetSteps => true,
            Action::Fail => builder.can_emit(),
        }
    }

    /// The builder after the operation.
    pub open spec fn apply(self, builder: BuilderView) -> BuilderView {
        match self {
            Action::AddVar(value) => builder.add_var(value),
            Action::AllocVar(local_var) => builder.alloc_var(local_var),
            Action::DuplicateVar(var) => builder.duplicate_var(var),
            Action::AddHint(hint) => builder.add_hint(hint),
            Action::AssertVarsEq(dst, res) => builder.assert_vars_eq(dst, res),
            Action::BufferWriteAndInc(buffer, value) => builder.buffer_write_and_inc(buffer, value),
            Action::MaybeAddTempvar(var) => builder.maybe_add_tempvar(var),
            Action::GetRefAndInc(buffer) => builder.buffer_location(buffer),
            Action::AddAp(size) => builder.add_ap(size as int),
            Action::IncreaseApChange(amount) => builder.increase_ap_change(amount as int),
            Action::BinOp(op, lhs, rhs) => builder.bin_op(op, lhs, rhs),
            Action::DoubleDeref(var, offset) => builder.double_deref(var, offset as int),
            Action::Jump(label) => builder.jump(label),
            Action::JumpNz(condition, label) => builder.jump_nz(condition, label),
            Action::Label(name) => builder.label(name),
            Action::Rescope(vars) => builder.rescope(vars),
            Action::Call(label) => builder.call(label),
            Action::Ret => builder.ret(),
            Action::ResetSteps => BuilderView {
                main_state: StateView { steps: 0, ..builder.main_state },
                ..builder
            },
            Action::Fail => builder.fail(),
        }
    }

    /// Whether the operation gives values to no variables but those that the builder made. Only
    /// rescoping can bring in variables of another builder.
    pub open spec fn keeps_to_own_vars(self, builder: BuilderView) -> bool {
        self matches Action::Rescope(vars) ==> forall|i: int|
            #![trigger vars[i]]
            0 <= i < vars.len() ==> vars[i].0.spec_index() < builder.var_count
    }
}

impl StateView {
    /// Whether the state only knows variables of which at most `var_count` were made.
    pub open spec fn knows_first(self, var_count: int) -> bool {
        forall|var: Var| #[trigger]
            self.vars.map.contains_key(var) ==> var.spec_index() < var_count
    }
}

impl BuilderView {
    /// Whether a statement fits the rest of the builder: a final instruction is no jump, a jump
    /// goes by the constant 0 until its label is known, to a label that has a state, and a label
    /// that was added was read.
    pub open spec fn statement_wf(self, statement: StatementView) -> bool {
        match statement {
            StatementView::Final(inst) => inst.body.jump_distance() is None,
            StatementView::Jump(label, inst) => {
                &&& inst.body.jump_distance() == Some(0int)
                &&& self.label_state.contains_key(label)
            },
            StatementView::Label(name) => self.read_labels.contains(name),
        }
    }

    /// What holds of the code of every builder: its statements fit, and the labels that were read
    /// have states.
    pub open spec fn code_wf(self) -> bool {
        &&& forall|label: Seq<char>| #[trigger]
            self.read_labels.contains(label) ==> self.label_state.contains_key(label)
        &&& forall|i: int|
            #![trigger self.statements[i]]
            0 <= i < self.statements.len() ==> self.statement_wf(self.statements[i])
    }

    /// What holds of every builder.
    pub open spec fn wf(self) -> bool {
        &&& self.main_state.wf()
        &&& 0 <= self.var_count <= usize::MAX
        &&& forall|label: Seq<char>| #[trigger]
            self.label_state.contains_key(label) ==> self.label_state[label].wf()
        &&& self.code_wf()
    }

    /// Whether the builder only knows variables that it made.
    pub open spec fn has_own_vars(self) -> bool {
        &&& self.main_state.knows_first(self.var_count)
        &&& forall|label: Seq<char>| #[trigger]
            self.label_state.contains_key(label) ==> self.label_state[label].knows_first(
                self.var_count,
            )
    }
}

/// A variable with a value keeps a builder well formed.
proof fn lemma_with_var_wf(builder: BuilderView, var: Var, value: CellExpression<int>)
    requires
        builder.wf(),
    ensures
        (BuilderView { main_state: builder.main_state.with_var(var, value), ..builder }).wf(),
{
    builder.main_state.vars.lemma_insert_wf(var, value);
}

/// A new variable keeps a builder well formed.
proof fn lemma_add_var_wf(builder: BuilderView, value: CellExpression<int>)
    requires
        builder.wf(),
        builder.can_add_var(),
    ensures
        builder.add_var(value).wf(),
{
    let counted = BuilderView { var_count: builder.var_count + 1, ..builder };
    lemma_with_var_wf(counted, builder.next_var(), value);
}

/// A statement that fits keeps a builder well formed.
proof fn lemma_push_wf(builder: BuilderView, statement: StatementView)
    requires
        builder.wf(),
        builder.statement_wf(statement),
    ensures
        builder.push(statement).wf(),
{
}

/// An instruction that is no jump keeps a builder well formed.
proof fn lemma_emit_wf(builder: BuilderView, body: InstructionBody<int>, inc_ap_supported: bool)
    requires
        builder.wf(),
        builder.can_emit(),
        body.jump_distance() is None,
    ensures
        builder.emit(body, inc_ap_supported).wf(),
{
    lemma_push_wf(
        builder.step(inc_ap_supported),
        StatementView::Final(builder.instruction(body, inc_ap_supported)),
    );
}

/// What two states that can meet both know is well formed.
proof fn lemma_intersected_wf(state: StateView, other: StateView)
    requires
        state.wf(),
        other.wf(),
    ensures
        state.intersected(other).wf(),
{
    state.vars.lemma_restrict_to_wf(other.vars.map);
}

/// A jump to a label that is reached in the state `state` keeps a builder well formed.
proof fn lemma_jump_wf(
    builder: BuilderView,
    label: Seq<char>,
    body: InstructionBody<int>,
    inc_ap_supported: bool,
    main_state: StateView,
    state: StateView,
)
    requires
        builder.wf(),
        builder.can_emit(),
        body.jump_distance() == Some(0int),
        main_state.wf(),
        state.wf(),
    ensures
        (BuilderView {
            main_state,
            ..builder.emit_jump(label, body, inc_ap_supported)
        }).reach_label(label, state).wf(),
{
    let stepped = BuilderView { main_state, ..builder.step(inc_ap_supported) };
    lemma_reach_label_wf(stepped, label, state);
    lemma_push_wf(
        stepped.reach_label(label, state),
        StatementView::Jump(label, builder.instruction(body, inc_ap_supported)),
    );
}

/// Reaching a label keeps a builder well formed.
proof fn lemma_reach_label_wf(builder: BuilderView, label: Seq<char>, state: StateView)
    requires
        builder.wf(),
        state.wf(),
    ensures
        builder.reach_label(label, state).wf(),
{
    if builder.label_state.contains_key(label) {
        lemma_intersected_wf(builder.label_state[label], state);
    }
}

/// What is rescoped is well formed.
proof fn lemma_rescoped_wf(state: StateView, vars: Seq<(Var, Var)>)
    ensures
        rescoped(state, vars).wf(),
    decreases vars.len(),
{
    if vars.len() > 0 {
        let rest = vars.drop_last();
        lemma_rescoped_wf(state, rest);
        rescoped(state, rest).lemma_insert_wf(vars.last().0, state.value(vars.last().1, true));
    }
}

/// What is rescoped is on the left.
proof fn lemma_rescoped_vars(state: StateView, vars: Seq<(Var, Var)>, var_count: int)
    requires
        forall|i: int|
            #![trigger vars[i]]
            0 <= i < vars.len() ==> vars[i].0.spec_index() < var_count,
    ensures
        forall|var: Var| #[trigger]
            rescoped(state, vars).map.contains_key(var) ==> var.spec_index() < var_count,
    decreases vars.len(),
{
    if vars.len() > 0 {
        let rest = vars.drop_last();
        lemma_rescoped_vars(state, rest, var_count);
        assert forall|var: Var| #[trigger] rescoped(state, vars).map.contains_key(var) implies
            var.spec_index() < var_count by {
            assert(vars[vars.len() - 1].0 == var || rescoped(state, rest).map.contains_key(var));
        }
    }
}

/// A new builder is well formed, and knows no variables.
pub proof fn law_initial_wf()
    ensures
        BuilderView::initial().wf(),
        BuilderView::initial().has_own_vars(),
{
}

/// Variables that the builder made do not make it know others.
proof fn lemma_grown_own_vars(builder: BuilderView, after: BuilderView)
    requires
        builder.has_own_vars(),
        after.label_state == builder.label_state,
        after.var_count >= builder.var_count,
        forall|var: Var| #[trigger]
            after.main_state.vars.map.contains_key(var)
                ==> builder.main_state.vars.map.contains_key(var) || var.spec_index()
                < after.var_count,
    ensures
        after.has_own_vars(),
{
}

/// Reaching a label does not make a builder know other variables.
proof fn lemma_reached_own_vars(builder: BuilderView, label: Seq<char>, state: StateView)
    requires
        builder.has_own_vars(),
        state.knows_first(builder.var_count),
    ensures
        builder.reach_label(label, state).has_own_vars(),
{
}

/// A builder goes on knowing only variables that it made, unless rescoping brings in others.
pub proof fn law_action_keeps_own_vars(builder: BuilderView, action: Action)
    requires
        builder.wf(),
        builder.has_own_vars(),
        action.can(builder),
        action.keeps_to_own_vars(builder),
    ensures
        action.apply(builder).has_own_vars(),
{
    match action {
        Action::Jump(label) => {
            let emitted = builder.emit_unconditional_jump(label);
            lemma_reached_own_vars(emitted, label, emitted.main_state);
        },
        Action::JumpNz(condition, label) => {
            let emitted = builder.emit_jump_nz(condition, label);
            lemma_reached_own_vars(emitted, label, emitted.main_state);
        },
        Action::Label(name) => {
            if builder.reachable {
                lemma_reached_own_vars(builder, name, builder.main_state);
            }
            assert(builder.fall_into(name).label_state.contains_key(name));
        },
        Action::Call(label) => {
            lemma_reached_own_vars(builder.emit_call(label), label, builder.function_state());
        },
        Action::Rescope(vars) => {
            lemma_rescoped_vars(builder.main_state, vars, builder.var_count);
        },
        _ => {
            broadcast use Var::lemma_index;

            lemma_grown_own_vars(builder, action.apply(builder));
        },
    }
}

/// The variable that is made next is known nowhere yet to a builder that only knows its own.
pub proof fn law_next_var_is_new(builder: BuilderView)
    requires
        builder.wf(),
        builder.has_own_vars(),
        builder.can_add_var(),
    ensures
        !builder.main_state.vars.map.contains_key(builder.next_var()),
        forall|label: Seq<char>| #[trigger]
            builder.label_state.contains_key(label)
                ==> !builder.label_state[label].vars.map.contains_key(builder.next_var()),
{
    broadcast use Var::lemma_index;

}

/// No operation takes back a variable: what is made after it is not what was made before it.
pub proof fn law_vars_are_not_reused(builder: BuilderView, action: Action)
    requires
        builder.wf(),
        action.can(builder),
    ensures
        builder.var_count <= action.apply(builder).var_count <= builder.var_count + 1,
        builder.var_count < action.apply(builder).var_count && action.apply(builder).can_add_var()
            ==> builder.next_var() != action.apply(builder).next_var(),
{
    broadcast use Var::lemma_index;

}

/// Every operation keeps a builder well formed.
pub proof fn law_action_wf(builder: BuilderView, action: Action)
    requires
        builder.wf(),
        action.can(builder),
    ensures
        action.apply(builder).wf(),
{
    match action {
        Action::AddVar(value) => lemma_add_var_wf(builder, value),
        Action::AllocVar(local_var) => lemma_alloc_var_wf(builder, local_var),
        Action::DuplicateVar(var) => lemma_add_var_wf(
            builder,
            builder.main_state.value(var, false),
        ),
        Action::AddHint(_) => {},
        Action::AssertVarsEq(dst, res) => lemma_assert_vars_eq_wf(builder, dst, res),
        Action::BufferWriteAndInc(buffer, value) => {
            lemma_buffer_location_wf(builder, buffer);
            lemma_assert_vars_eq_wf(builder.buffer_location(buffer), value, builder.next_var());
        },
        Action::MaybeAddTempvar(var) => match trivial_cell(builder.main_state.value(var, false)) {
            Some(cell) => lemma_add_var_wf(builder, CellExpression::Deref(cell)),
            None => {
                lemma_alloc_var_wf(builder, false);
                lemma_assert_vars_eq_wf(builder.alloc_var(false), builder.next_var(), var);
            },
        },
        Action::GetRefAndInc(buffer) => lemma_buffer_location_wf(builder, buffer),
        Action::AddAp(size) => {},
        Action::IncreaseApChange(_) => {},
        Action::BinOp(op, lhs, rhs) => lemma_add_var_wf(
            builder,
            builder.bin_op(op, lhs, rhs).main_state.value(builder.next_var(), false),
        ),
        Action::DoubleDeref(var, offset) => lemma_add_var_wf(
            builder,
            builder.double_deref(var, offset as int).main_state.value(builder.next_var(), false),
        ),
        Action::Jump(label) => {
            let emitted = builder.emit_unconditional_jump(label);
            lemma_jump_wf(
                builder,
                label,
                emitted.statements.last()->Jump_1.body,
                true,
                StateView::empty(),
                emitted.main_state,
            );
            assert(builder.jump(label) == (BuilderView {
                reachable: false,
                ..(BuilderView { main_state: StateView::empty(), ..emitted }).reach_label(
                    label,
                    emitted.main_state,
                )
            }));
        },
        Action::JumpNz(condition, label) => {
            let emitted = builder.emit_jump_nz(condition, label);
            lemma_jump_wf(
                builder,
                label,
                emitted.statements.last()->Jump_1.body,
                true,
                emitted.main_state,
                emitted.main_state,
            );
        },
        Action::Label(name) => {
            if builder.reachable {
                lemma_reach_label_wf(builder, name, builder.main_state);
            }
            let reached = builder.fall_into(name);
            assert(reached.label_state.contains_key(name));
            lemma_push_wf(
                BuilderView {
                    read_labels: reached.read_labels.insert(name),
                    main_state: reached.label_state[name],
                    ..reached
                },
                StatementView::Label(name),
            );
        },
        Action::Rescope(vars) => lemma_rescoped_wf(builder.main_state, vars),
        Action::Call(label) => {
            let emitted = builder.emit_call(label);
            builder.main_state.vars.lemma_select_wf(
                |value: CellExpression<int>| kept_by_caller(value),
                |value: CellExpression<int>| value,
            );
            let ap_change = builder.main_state.ap_change + 2;
            builder.main_state.vars.lemma_select_wf(
                |value: CellExpression<int>| passed_to_function(value),
                |value: CellExpression<int>| function_value(value, ap_change),
            );
            lemma_jump_wf(
                builder,
                label,
                emitted.statements.last()->Jump_1.body,
                false,
                emitted.main_state,
                builder.function_state(),
            );
        },
        Action::Ret => {},
        Action::ResetSteps => {},
        Action::Fail => {},
    }
}

/// Allocating a variable keeps a builder well formed.
proof fn lemma_alloc_var_wf(builder: BuilderView, local_var: bool)
    requires
        builder.wf(),
        builder.can_alloc_var(),
    ensures
        builder.alloc_var(local_var).wf(),
{
    lemma_add_var_wf(
        builder,
        builder.alloc_var(local_var).main_state.value(builder.next_var(), false),
    );
}

/// An assertion keeps a builder well formed.
proof fn lemma_assert_vars_eq_wf(builder: BuilderView, dst: Var, res: Var)
    requires
        builder.wf(),
        builder.can_assert_vars_eq(dst, res),
    ensures
        builder.assert_vars_eq(dst, res).wf(),
{
    lemma_emit_wf(
        builder,
        builder.assert_vars_eq(dst, res).statements.last()->Final_0.body,
        true,
    );
}

/// Taking a place of a buffer keeps a builder well formed.
proof fn lemma_buffer_location_wf(builder: BuilderView, buffer: Var)
    requires
        builder.wf(),
        builder.can_get_ref_and_inc(buffer),
    ensures
        builder.buffer_location(buffer).wf(),
{
    let after = builder.buffer_location(buffer);
    lemma_with_var_wf(builder, buffer, builder.increment(buffer).main_state.value(buffer, false));
    lemma_add_var_wf(
        builder.increment(buffer),
        after.main_state.value(builder.next_var(), false),
    );
}

} // verus!
