//! What operations do to the code, the hints, the allocation pointer and the steps.

use vstd::prelude::*;

use crate::hints::Hint;
use crate::instructions::InstructionView;
use crate::laws::invariants::Action;
use crate::model::{BuilderView, StatementView};
use crate::state::Var;

verus! {

/// The instruction of a statement.
pub open spec fn instruction_of(statement: StatementView) -> Option<InstructionView> {
    match statement {
        StatementView::Final(inst) => Some(inst),
        StatementView::Jump(_, inst) => Some(inst),
        StatementView::Label(_) => None,
    }
}

/// The instruction that makes `after` of `before`, if it is an instruction that does.
pub open spec fn added_instruction(before: BuilderView, after: BuilderView) -> Option<
    InstructionView,
> {
    if after.statements.len() > before.statements.len() {
        instruction_of(after.statements.last())
    } else {
        None
    }
}

/// By how much an instruction increases AP, if there is one.
pub open spec fn ap_increase(inst: Option<InstructionView>) -> int {
    match inst {
        Some(inst) => inst.ap_increase(),
        None => 0,
    }
}

/// The number of steps of an instruction, if there is one.
pub open spec fn step_count(inst: Option<InstructionView>) -> int {
    match inst {
        Some(_) => 1,
        None => 0,
    }
}

/// The hints of the instructions of the first `n` statements.
pub open spec fn hints_of(statements: Seq<StatementView>, n: int) -> Seq<Hint>
    decreases n,
{
    if n <= 0 {
        Seq::empty()
    } else {
        match instruction_of(statements[n - 1]) {
            Some(inst) => hints_of(statements, n - 1) + inst.hints,
            None => hints_of(statements, n - 1),
        }
    }
}

impl BuilderView {
    /// All the hints that the builder was given: those of the instructions, and those that the next
    /// instruction will take.
    pub open spec fn hints(self) -> Seq<Hint> {
        hints_of(self.statements, self.statements.len() as int) + self.current_hints
    }
}

impl Action {
    /// Whether the operation stays in the run that it is taken in. Jumps, labels, calls and
    /// rescoping leave it.
    pub open spec fn stays_in_run(self) -> bool {
        !(self is Jump || self is Label || self is Call || self is Rescope)
    }

    /// Whether the operation moves the variable on.
    pub open spec fn moves(self, var: Var) -> bool {
        match self {
            Action::BufferWriteAndInc(buffer, _) => buffer == var,
            Action::GetRefAndInc(buffer) => buffer == var,
            _ => false,
        }
    }
}

/// Statements are added at the end, at most one at a time, and never change afterwards.
pub proof fn law_statements_are_appended(builder: BuilderView, action: Action)
    requires
        action.can(builder),
    ensures
        ({
            let after = action.apply(builder);
            ||| after.statements == builder.statements
            ||| after.statements == builder.statements.push(after.statements.last())
        }),
{
}

/// Within a run the AP change grows by as much as the added instruction increases AP, and the steps
/// are counted. (`increase_ap_change` and `reset_steps` are there to say otherwise.)
pub proof fn law_run_is_tracked(builder: BuilderView, action: Action)
    requires
        action.can(builder),
        action.stays_in_run(),
    ensures
        ({
            let after = action.apply(builder);
            let added = added_instruction(builder, after);
            &&& match action {
                Action::IncreaseApChange(amount) => {
                    &&& after.main_state.ap_change == builder.main_state.ap_change + amount
                    &&& after.main_state.allocated == builder.main_state.allocated + amount
                },
                _ => after.main_state.ap_change == builder.main_state.ap_change + ap_increase(
                    added,
                ),
            }
            &&& match action {
                Action::ResetSteps => after.main_state.steps == 0,
                _ => after.main_state.steps == builder.main_state.steps + step_count(added),
            }
            &&& after.main_state.allocated >= builder.main_state.allocated
        }),
{
}

/// An instruction only increments AP to pass a variable that was allocated, so AP does not pass
/// more cells than were allocated unless `add_ap` is asked for it.
pub proof fn law_ap_does_not_run_ahead(builder: BuilderView, action: Action)
    requires
        action.can(builder),
        action.stays_in_run(),
        !(action is AddAp),
        builder.main_state.ap_change <= builder.main_state.allocated,
    ensures
        ({
            let after = action.apply(builder).main_state;
            after.ap_change <= after.allocated
        }),
{
}

/// A cell that is allocated later in a run is not one that was allocated before.
pub proof fn law_allocated_cells_are_new(
    first: BuilderView,
    second: BuilderView,
    local_var: bool,
    later_local_var: bool,
)
    requires
        first.main_state.wf(),
        first.can_alloc_var(),
        second.can_alloc_var(),
        second.main_state.allocated >= first.alloc_var(local_var).main_state.allocated,
    ensures
        ({
            let after = first.alloc_var(local_var).main_state;
            let later = second.alloc_var(later_local_var).main_state;
            &&& after.has_cell(first.next_var(), false)
            &&& later.has_cell(second.next_var(), false)
            &&& after.cell(first.next_var(), false) != later.cell(second.next_var(), false)
        }),
{
}

/// Within a run the known variables keep their values, but for a buffer that is moved on.
pub proof fn law_run_keeps_values(builder: BuilderView, action: Action, var: Var)
    requires
        action.can(builder),
        action.stays_in_run(),
        builder.main_state.vars.map.contains_key(var),
        var != builder.next_var(),
        !action.moves(var),
    ensures
        ({
            let after = action.apply(builder).main_state;
            &&& after.vars.map.contains_key(var)
            &&& after.vars.map[var] == builder.main_state.vars.map[var]
        }),
{
}

/// The hints depend on the statements alone.
proof fn lemma_hints_of_prefix(statements: Seq<StatementView>, statement: StatementView, n: int)
    requires
        0 <= n <= statements.len(),
    ensures
        hints_of(statements.push(statement), n) == hints_of(statements, n),
    decreases n,
{
    if n > 0 {
        lemma_hints_of_prefix(statements, statement, n - 1);
    }
}

/// No operation loses a hint or changes the order of the hints: `add_hint` adds one at the end, and
/// every instruction takes those that wait for it.
pub proof fn law_hints_are_kept(builder: BuilderView, action: Action)
    requires
        action.can(builder),
    ensures
        action.apply(builder).hints() == (match action {
            Action::AddHint(hint) => builder.hints().push(hint),
            _ => builder.hints(),
        }),
{
    let after = action.apply(builder);
    law_statements_are_appended(builder, action);
    let len = builder.statements.len() as int;
    if after.statements.len() > len {
        lemma_hints_of_prefix(builder.statements, after.statements.last(), len);
    }
    assert(after.hints() =~= (match action {
        Action::AddHint(hint) => builder.hints().push(hint),
        _ => builder.hints(),
    }));
}

} // verus!
