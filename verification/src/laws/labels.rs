//! The states of the labels.

use vstd::prelude::*;

use crate::laws::invariants::Action;
use crate::laws::maps::{in_order_of, law_restrict_to};
use crate::model::BuilderView;
use crate::state::{StateView, Var};

verus! {

impl StateView {
    /// Whether what this state says holds in `other`: it knows no variable that `other` does not,
    /// with the value that `other` gives it, and as much of AP and the allocated variables, and it
    /// counts at least as many steps.
    pub open spec fn holds_in(self, other: StateView) -> bool {
        &&& self.ap_change == other.ap_change
        &&& self.allocated == other.allocated
        &&& self.steps >= other.steps
        &&& forall|var: Var| #[trigger]
            self.vars.map.contains_key(var) ==> other.vars.map.contains_key(var)
                && self.vars.map[var] == other.vars.map[var]
    }
}

impl Action {
    /// The label that the operation reaches, and the state in which it does.
    pub open spec fn reaches(self, builder: BuilderView) -> Option<(Seq<char>, StateView)> {
        match self {
            Action::Jump(label) => Some(
                (label, builder.emit_unconditional_jump(label).main_state),
            ),
            Action::JumpNz(condition, label) => Some(
                (label, builder.emit_jump_nz(condition, label).main_state),
            ),
            Action::Label(name) => if builder.reachable {
                Some((name, builder.main_state))
            } else {
                None
            },
            Action::Call(label) => Some((label, builder.function_state())),
            _ => None,
        }
    }
}

/// The state of a label holds in every state in which the label is reached.
pub proof fn law_label_state_holds_where_reached(builder: BuilderView, action: Action)
    requires
        action.can(builder),
        action.reaches(builder) is Some,
    ensures
        ({
            let (label, state) = action.reaches(builder).unwrap();
            let after = action.apply(builder);
            &&& after.label_state.contains_key(label)
            &&& after.label_state[label].holds_in(state)
        }),
{
}

/// What was said of a label goes on holding: where the state of a label held, it still holds after
/// any operation. It can only forget variables and count more steps.
pub proof fn law_label_state_goes_on_holding(
    builder: BuilderView,
    action: Action,
    label: Seq<char>,
    state: StateView,
)
    requires
        action.can(builder),
        builder.label_state.contains_key(label),
        builder.label_state[label].holds_in(state),
    ensures
        action.apply(builder).label_state.contains_key(label),
        action.apply(builder).label_state[label].holds_in(state),
{
}

/// The state of a label keeps every variable that is known, with the same value, wherever the label
/// is reached.
pub proof fn law_label_state_keeps_what_agrees(
    builder: BuilderView,
    action: Action,
    label: Seq<char>,
    var: Var,
)
    requires
        action.can(builder),
        builder.label_state.contains_key(label),
        builder.label_state[label].vars.map.contains_key(var),
        action.reaches(builder) matches Some((reached, state)) ==> reached == label
            ==> state.vars.map.contains_key(var),
    ensures
        ({
            let after = action.apply(builder);
            &&& after.label_state[label].vars.map.contains_key(var)
            &&& after.label_state[label].vars.map[var]
                == builder.label_state[label].vars.map[var]
        }),
{
}

/// A label that was read stays read, and what it says of AP, of the allocated variables and of the
/// steps does not change any more.
pub proof fn law_read_labels_are_fixed(builder: BuilderView, action: Action, label: Seq<char>)
    requires
        builder.code_wf(),
        action.can(builder),
        builder.read_labels.contains(label),
    ensures
        ({
            let before = builder.label_state[label];
            let after = action.apply(builder).label_state[label];
            &&& action.apply(builder).read_labels.contains(label)
            &&& after.ap_change == before.ap_change
            &&& after.allocated == before.allocated
            &&& after.steps == before.steps
        }),
{
}

/// After a label the builder is in the state of the label.
pub proof fn law_label_sets_state(builder: BuilderView, name: Seq<char>)
    requires
        builder.can_label(name),
    ensures
        ({
            let after = builder.label(name);
            &&& after.reachable
            &&& after.label_state.contains_key(name)
            &&& after.main_state == after.label_state[name]
            &&& after.read_labels.contains(name)
        }),
{
}

/// When a label that has the state `state` can be reached in the state `other`, and what is known
/// of it then: the variables that both states know, which agree, in the order of the first; and the
/// steps of the longer of the two ways.
pub proof fn law_meeting(state: StateView, other: StateView, read_only: bool, var: Var)
    requires
        state.vars.wf(),
    ensures
        state.can_intersect(other, read_only) <==> {
            &&& state.ap_change == other.ap_change
            &&& state.allocated == other.allocated
            &&& read_only ==> other.steps <= state.steps
            &&& forall|v: Var| #[trigger]
                state.vars.map.contains_key(v) && other.vars.map.contains_key(v)
                    ==> state.vars.map[v] == other.vars.map[v]
        },
        ({
            let met = state.intersected(other);
            &&& met.ap_change == state.ap_change
            &&& met.allocated == state.allocated
            &&& met.steps >= state.steps && met.steps >= other.steps
            &&& met.steps == state.steps || met.steps == other.steps
            &&& met.vars.map.contains_key(var) <==> state.vars.map.contains_key(var)
                && other.vars.map.contains_key(var)
            &&& met.vars.map.contains_key(var) ==> met.vars.map[var] == state.vars.map[var]
            &&& met.vars.keys.contains(var) <==> met.vars.map.contains_key(var)
            &&& in_order_of(met.vars.keys, state.vars.keys)
        }),
{
    law_restrict_to(state.vars, other.vars.map, var);
}

/// It does not matter in which of two states a label is reached first: the same is known of it.
pub proof fn law_merging_is_symmetric(state: StateView, other: StateView)
    requires
        state.can_intersect(other, false),
    ensures
        other.can_intersect(state, false),
        state.intersected(other).vars.map == other.intersected(state).vars.map,
        state.intersected(other).ap_change == other.intersected(state).ap_change,
        state.intersected(other).allocated == other.intersected(state).allocated,
        state.intersected(other).steps == other.intersected(state).steps,
{
}

/// Reaching a label again in the state that it has changes nothing.
pub proof fn law_merging_is_idempotent(state: StateView, read_only: bool)
    requires
        state.vars.wf(),
    ensures
        state.can_intersect(state, read_only),
        state.intersected(state) == state,
{
    state.vars.lemma_restrict_to_self();
}

/// Nothing is reached after a jump, a return or a failure, and no instruction can be added before a
/// label.
pub proof fn law_nothing_follows(builder: BuilderView, action: Action)
    requires
        action.can(builder),
        action is Jump || action is Ret || action is Fail,
    ensures
        !action.apply(builder).reachable,
        !action.apply(builder).can_emit(),
{
}

/// Only a label makes code reachable again.
pub proof fn law_only_labels_make_reachable(builder: BuilderView, action: Action)
    requires
        action.can(builder),
        !builder.reachable,
    ensures
        action.apply(builder).reachable == (action is Label),
{
}

} // verus!
