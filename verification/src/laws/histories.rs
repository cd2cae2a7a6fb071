//! What holds after any number of operations on a new builder.

use vstd::prelude::*;

use crate::cell_expression::CellExpression;
use crate::hints::Hint;
use crate::laws::code::{instructions_hints, law_code_has_all_hints};
use crate::laws::invariants::{
    law_action_keeps_own_vars, law_action_wf, law_initial_wf, law_vars_are_not_reused, Action,
};
use crate::laws::labels::{
    law_label_state_goes_on_holding, law_label_state_holds_where_reached,
};
use crate::laws::runs::{added_instruction, law_hints_are_kept};
use crate::model::BuilderView;
use crate::state::{StateView, Var};

verus! {

/// What a new builder is after the operations.
pub open spec fn taken(actions: Seq<Action>) -> BuilderView
    decreases actions.len(),
{
    if actions.len() == 0 {
        BuilderView::initial()
    } else {
        actions.last().apply(taken(actions.drop_last()))
    }
}

/// Whether a new builder can take the operations one after the other.
pub open spec fn can_take(actions: Seq<Action>) -> bool
    decreases actions.len(),
{
    actions.len() > 0 ==> {
        &&& can_take(actions.drop_last())
        &&& actions.last().can(taken(actions.drop_last()))
    }
}

/// Whether the last jump, return, failure or label among the operations, if there is one, is a
/// label.
pub open spec fn ends_reachable(actions: Seq<Action>) -> bool
    decreases actions.len(),
{
    if actions.len() == 0 {
        true
    } else {
        match actions.last() {
            Action::Label(_) => true,
            Action::Jump(_) | Action::Ret | Action::Fail => false,
            _ => ends_reachable(actions.drop_last()),
        }
    }
}

/// The hints that the operations add.
pub open spec fn added_hints(actions: Seq<Action>) -> Seq<Hint>
    decreases actions.len(),
{
    if actions.len() == 0 {
        Seq::empty()
    } else {
        match actions.last() {
            Action::AddHint(hint) => added_hints(actions.drop_last()).push(hint),
            _ => added_hints(actions.drop_last()),
        }
    }
}

impl Action {
    /// Whether the operation always adds an instruction.
    pub open spec fn emits(self) -> bool {
        ||| self is AddAp
        ||| self is AssertVarsEq
        ||| self is BufferWriteAndInc
        ||| self is Jump
        ||| self is JumpNz
        ||| self is Call
        ||| self is Ret
        ||| self is Fail
    }
}

/// Every builder is well formed, whatever was done with it.
pub proof fn law_every_builder_is_wf(actions: Seq<Action>)
    requires
        can_take(actions),
    ensures
        taken(actions).wf(),
    decreases actions.len(),
{
    if actions.len() == 0 {
        law_initial_wf();
    } else {
        law_every_builder_is_wf(actions.drop_last());
        law_action_wf(taken(actions.drop_last()), actions.last());
    }
}

/// A builder knows only variables that it made, unless rescoping brought in others.
pub proof fn law_every_builder_has_own_vars(actions: Seq<Action>)
    requires
        can_take(actions),
        forall|i: int|
            #![trigger actions[i]]
            0 <= i < actions.len() ==> actions[i].keeps_to_own_vars(taken(actions.take(i))),
    ensures
        taken(actions).has_own_vars(),
    decreases actions.len(),
{
    if actions.len() == 0 {
        law_initial_wf();
    } else {
        let before = actions.drop_last();
        assert forall|i: int| #![trigger before[i]] 0 <= i < before.len() implies before[i]
            .keeps_to_own_vars(taken(before.take(i))) by {
            assert(before[i] == actions[i]);
            assert(before.take(i) =~= actions.take(i));
        }
        law_every_builder_has_own_vars(before);
        law_every_builder_is_wf(before);
        assert(actions.take(actions.len() - 1) =~= before);
        assert(actions[actions.len() - 1] == actions.last());
        law_action_keeps_own_vars(taken(before), actions.last());
    }
}

/// The number of variables made never falls, and each operation makes at most one.
proof fn lemma_var_count(actions: Seq<Action>, i: int)
    requires
        can_take(actions),
        0 <= i <= actions.len(),
    ensures
        can_take(actions.take(i)),
        0 <= taken(actions.take(i)).var_count <= taken(actions).var_count <= usize::MAX,
    decreases actions.len(),
{
    law_every_builder_is_wf(actions);
    if i == actions.len() {
        assert(actions.take(i) =~= actions);
    } else {
        let before = actions.drop_last();
        assert(before.take(i) =~= actions.take(i));
        lemma_var_count(before, i);
        law_every_builder_is_wf(before);
        law_vars_are_not_reused(taken(before), actions.last());
    }
}

/// No variable is returned twice: the one that is made next is not one that was made at any time
/// before, whatever became of it since.
pub proof fn law_variables_are_never_returned_twice(actions: Seq<Action>, i: int)
    requires
        can_take(actions),
        0 <= i < actions.len(),
        taken(actions.take(i)).var_count < taken(actions.take(i + 1)).var_count,
        taken(actions).can_add_var(),
    ensures
        taken(actions).next_var() != taken(actions.take(i)).next_var(),
{
    broadcast use Var::lemma_index;

    lemma_var_count(actions, i);
    lemma_var_count(actions, i + 1);
}

/// `add_var` gives a variable that was not made before, with the value that is asked for. The other
/// variables keep their values, and nothing else changes.
pub proof fn law_add_var(actions: Seq<Action>, value: CellExpression<int>, other: Var)
    requires
        can_take(actions),
        taken(actions).can_add_var(),
    ensures
        ({
            let builder = taken(actions);
            let after = builder.add_var(value);
            &&& after.main_state.has_value(builder.next_var(), false)
            &&& after.main_state.value(builder.next_var(), false) == value
            &&& forall|i: int|
                #![trigger taken(actions.take(i))]
                0 <= i < actions.len() && taken(actions.take(i)).var_count < taken(
                    actions.take(i + 1),
                ).var_count ==> taken(actions.take(i)).next_var() != builder.next_var()
            &&& other != builder.next_var() ==> {
                &&& after.main_state.vars.map.contains_key(other)
                    <==> builder.main_state.vars.map.contains_key(other)
                &&& after.main_state.vars.map[other] == builder.main_state.vars.map[other]
            }
            &&& after == (BuilderView {
                main_state: StateView {
                    vars: after.main_state.vars,
                    ..builder.main_state
                },
                var_count: builder.var_count + 1,
                ..builder
            })
        }),
{
    assert forall|i: int|
        #![trigger taken(actions.take(i))]
        0 <= i < actions.len() && taken(actions.take(i)).var_count < taken(
            actions.take(i + 1),
        ).var_count implies taken(actions.take(i)).next_var() != taken(actions).next_var() by {
        law_variables_are_never_returned_twice(actions, i);
    }
}

/// The code is reachable if and only if the last jump, return, failure or label was a label, or
/// there was none of them.
proof fn lemma_reachable(actions: Seq<Action>)
    requires
        can_take(actions),
    ensures
        taken(actions).reachable == ends_reachable(actions),
    decreases actions.len(),
{
    if actions.len() > 0 {
        lemma_reachable(actions.drop_last());
    }
}

/// `next_instruction`, by which every instruction comes, can be called if and only if the last
/// jump, return, failure or label was a label, or there was none of them, and the steps can be
/// counted: whatever the instruction is, `can_emit` is all that it asks for. Where it cannot be
/// called, no operation adds an instruction: what always adds one cannot be taken, and what can be
/// taken adds none.
pub proof fn law_instructions_need_reachable_code(actions: Seq<Action>, next: Action)
    requires
        can_take(actions),
    ensures
        ({
            let builder = taken(actions);
            &&& builder.reachable == ends_reachable(actions)
            &&& builder.can_emit() <==> ends_reachable(actions) && builder.main_state.steps
                < usize::MAX
            &&& !ends_reachable(actions) && next.emits() ==> !next.can(builder)
            &&& !ends_reachable(actions) && next.can(builder) ==> added_instruction(
                builder,
                next.apply(builder),
            ) is None
        }),
{
    lemma_reachable(actions);
}

/// What is called `emits` adds an instruction whenever it can be taken.
pub proof fn law_emitting_adds_an_instruction(builder: BuilderView, action: Action)
    requires
        action.emits(),
        action.can(builder),
    ensures
        added_instruction(builder, action.apply(builder)) is Some,
{
}

/// In the end the state of a label holds wherever the label was reached: at every jump, call or
/// label on the way.
pub proof fn law_label_state_holds_everywhere(actions: Seq<Action>, i: int)
    requires
        can_take(actions),
        0 <= i < actions.len(),
        actions[i].reaches(taken(actions.take(i))) is Some,
    ensures
        ({
            let (label, state) = actions[i].reaches(taken(actions.take(i))).unwrap();
            &&& taken(actions).label_state.contains_key(label)
            &&& taken(actions).label_state[label].holds_in(state)
        }),
    decreases actions.len(),
{
    let before = actions.drop_last();
    if i == actions.len() - 1 {
        assert(actions.take(i) =~= before);
        law_label_state_holds_where_reached(taken(before), actions.last());
    } else {
        assert(before.take(i) =~= actions.take(i));
        law_label_state_holds_everywhere(before, i);
        let (label, state) = actions[i].reaches(taken(actions.take(i))).unwrap();
        law_label_state_goes_on_holding(taken(before), actions.last(), label, state);
    }
}

/// The hints of a builder are those that were added, in order.
proof fn lemma_hints(actions: Seq<Action>)
    requires
        can_take(actions),
    ensures
        taken(actions).hints() == added_hints(actions),
    decreases actions.len(),
{
    if actions.len() > 0 {
        lemma_hints(actions.drop_last());
        law_hints_are_kept(taken(actions.drop_last()), actions.last());
    }
}

/// The code that is built has the hints that were added, all of them and in order.
pub proof fn law_code_has_the_added_hints(actions: Seq<Action>, names: Seq<Seq<char>>)
    requires
        can_take(actions),
        taken(actions).can_build(names),
    ensures
        instructions_hints(taken(actions).build(names).instructions) == added_hints(actions),
{
    lemma_hints(actions);
    law_code_has_all_hints(taken(actions), names);
}

} // verus!
