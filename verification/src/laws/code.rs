//! The code that is built.

use vstd::prelude::*;

use crate::hints::Hint;
use crate::instructions::{InstructionBody, InstructionView};
use crate::laws::runs::{hints_of, instruction_of};
use crate::model::{
    assembled, code_size, label_offset, relocations, resolved, BuilderView, StatementView,
};
use crate::operand::{DerefOrImmediate, ResOperand};

verus! {

/// The number of code cells of the instructions.
pub open spec fn instructions_size(instructions: Seq<InstructionView>) -> nat
    decreases instructions.len(),
{
    if instructions.len() == 0 {
        0
    } else {
        instructions_size(instructions.drop_last()) + instructions.last().body.size()
    }
}

/// The hints of the instructions.
pub open spec fn instructions_hints(instructions: Seq<InstructionView>) -> Seq<Hint>
    decreases instructions.len(),
{
    if instructions.len() == 0 {
        Seq::empty()
    } else {
        instructions_hints(instructions.drop_last()) + instructions.last().hints
    }
}

impl BuilderView {
    /// The place, among the instructions, of the statement number `i`.
    pub open spec fn place(self, i: int) -> int {
        assembled(self.statements, i).len() as int
    }

    /// The instructions of the code.
    pub open spec fn code(self) -> Seq<InstructionView> {
        assembled(self.statements, self.statements.len() as int)
    }

    /// Where the statement number `i` stands in the code.
    pub open spec fn position(self, i: int) -> nat {
        instructions_size(self.code().take(self.place(i)))
    }
}

/// Whether two targets are the same but for a constant, of which the second is `distance` more.
pub open spec fn is_moved(
    target: DerefOrImmediate<int>,
    moved: DerefOrImmediate<int>,
    distance: int,
) -> bool {
    match target {
        DerefOrImmediate::Deref(_) => moved == target,
        DerefOrImmediate::Immediate(old) => moved == DerefOrImmediate::<int>::Immediate(
            old + distance,
        ),
    }
}

/// Whether two instructions are the same but for how far they jump, which is `distance` further for
/// the second: a call stays a call, a jump a jump and a conditional jump one on the same condition,
/// and what is relative stays relative. What does not jump is the same.
pub open spec fn jumps_further(
    body: InstructionBody<int>,
    moved: InstructionBody<int>,
    distance: int,
) -> bool {
    match body {
        InstructionBody::Call(call) => moved matches InstructionBody::Call(other)
            && other.relative == call.relative && is_moved(call.target, other.target, distance),
        InstructionBody::Jnz(jnz) => moved matches InstructionBody::Jnz(other) && other.condition
            == jnz.condition && is_moved(jnz.jump_offset, other.jump_offset, distance),
        InstructionBody::Jump(jump) => moved matches InstructionBody::Jump(other)
            && other.relative == jump.relative && is_moved(jump.target, other.target, distance),
        InstructionBody::AddAp(_) | InstructionBody::AssertEq(_) | InstructionBody::Ret(_) => moved
            == body,
    }
}

/// Moving the target of a jump changes nothing but its distance, whatever the sign of that.
pub proof fn law_moved_target(body: InstructionBody<int>, distance: int)
    ensures
        jumps_further(body, body.moved_target(distance), distance),
        body.moved_target(distance).size() == body.size(),
        body.jump_distance() matches Some(old) ==> body.moved_target(distance).jump_distance()
            == Some(old + distance),
        body.jump_distance() is None ==> body.moved_target(distance) == body,
        body.moved_target(0) == body,
{
}

/// Moving a target twice is moving it by the sum.
pub proof fn law_moved_target_adds_up(body: InstructionBody<int>, first: int, second: int)
    ensures
        body.moved_target(first).moved_target(second) == body.moved_target(first + second),
{
}

/// Whether the operand holds a constant that takes a code cell of its own.
pub open spec fn has_constant(operand: ResOperand<int>) -> bool {
    ||| operand is Immediate
    ||| operand matches ResOperand::BinOp(bin_op) && bin_op.b is Immediate
}

/// An instruction takes one code cell, and one more if and only if it holds a constant.
pub proof fn law_instruction_sizes(body: InstructionBody<int>)
    ensures
        body.size() == (if match body {
            InstructionBody::AddAp(inst) => has_constant(inst.operand),
            InstructionBody::AssertEq(inst) => has_constant(inst.b),
            InstructionBody::Call(inst) => inst.target is Immediate,
            InstructionBody::Jnz(inst) => inst.jump_offset is Immediate,
            InstructionBody::Jump(inst) => inst.target is Immediate,
            InstructionBody::Ret(_) => false,
        } {
            2nat
        } else {
            1
        }),
{
}

/// The instructions of the first statements come first.
proof fn lemma_assembled_prefix(statements: Seq<StatementView>, i: int, n: int)
    requires
        0 <= i <= n <= statements.len(),
    ensures
        assembled(statements, i).len() <= assembled(statements, n).len(),
        assembled(statements, n).take(assembled(statements, i).len() as int) == assembled(
            statements,
            i,
        ),
    decreases n,
{
    let first = assembled(statements, i);
    if i == n {
    } else {
        lemma_assembled_prefix(statements, i, n - 1);
        let before = assembled(statements, n - 1);
        if !(statements[n - 1] is Label) {
            assert(before.push(resolved(statements, n - 1)).take(first.len() as int)
                =~= before.take(first.len() as int));
        }
    }
}

/// The code has the size of its statements.
proof fn lemma_assembled_size(statements: Seq<StatementView>, n: int)
    requires
        0 <= n <= statements.len(),
    ensures
        instructions_size(assembled(statements, n)) == code_size(statements.take(n)),
    decreases n,
{
    if n > 0 {
        lemma_assembled_size(statements, n - 1);
        assert(statements.take(n).drop_last() =~= statements.take(n - 1));
        let before = assembled(statements, n - 1);
        if !(statements[n - 1] is Label) {
            let inst = resolved(statements, n - 1);
            assert(before.push(inst).drop_last() =~= before);
            if let StatementView::Jump(name, jump) = statements[n - 1] {
                if let Some(offset) = label_offset(statements, name) {
                    law_moved_target(jump.body, offset - code_size(statements.take(n - 1)));
                }
            }
        }
    }
}

/// A statement stands behind the code cells of the statements before it.
pub proof fn law_position(builder: BuilderView, i: int)
    requires
        0 <= i <= builder.statements.len(),
    ensures
        builder.position(i) == code_size(builder.statements.take(i)),
{
    lemma_assembled_prefix(builder.statements, i, builder.statements.len() as int);
    lemma_assembled_size(builder.statements, i);
}

/// Every instruction that was added is in the code, at the place of its statement, with its hints
/// and with what it does to AP. It is what was added; only the jumps to the labels of the code go
/// further than they did, and are otherwise what was added too.
pub proof fn law_instructions_are_in_code(builder: BuilderView, i: int)
    requires
        0 <= i < builder.statements.len(),
        !(builder.statements[i] is Label),
    ensures
        ({
            let inst = instruction_of(builder.statements[i]).unwrap();
            let built = builder.code()[builder.place(i)];
            &&& 0 <= builder.place(i) < builder.code().len()
            &&& built.hints == inst.hints
            &&& built.inc_ap == inst.inc_ap
            &&& built.body.size() == inst.body.size()
            &&& built == inst || (builder.statements[i] is Jump && builder.statements.contains(
                StatementView::Label(builder.statements[i]->Jump_0),
            ))
            &&& exists|distance: int| #[trigger]
                jumps_further(inst.body, built.body, distance)
        }),
{
    let inst = instruction_of(builder.statements[i]).unwrap();
    law_moved_target(inst.body, 0);
    assert(jumps_further(inst.body, inst.body, 0));
    lemma_instruction_of_statement(builder, i);
    if let StatementView::Jump(name, jump) = builder.statements[i] {
        lemma_no_label_offset(builder.statements, name);
        if let Some(offset) = label_offset(builder.statements, name) {
            law_moved_target(jump.body, offset - code_size(builder.statements.take(i)));
        }
    }
}

/// At the place of a statement stands its instruction.
proof fn lemma_instruction_of_statement(builder: BuilderView, i: int)
    requires
        0 <= i < builder.statements.len(),
        !(builder.statements[i] is Label),
    ensures
        0 <= builder.place(i) < builder.code().len(),
        builder.code()[builder.place(i)] == resolved(builder.statements, i),
{
    let statements = builder.statements;
    lemma_assembled_prefix(statements, i + 1, statements.len() as int);
    let first = assembled(statements, i + 1);
    assert(builder.code().take(first.len() as int)[builder.place(i)] == first[builder.place(i)]);
}

/// The code holds as many instructions as there are statements that are no labels: the place of a
/// statement is the number of those before it.
pub proof fn law_places_are_counted(builder: BuilderView, i: int)
    requires
        0 <= i < builder.statements.len(),
    ensures
        builder.place(0) == 0,
        builder.place(i + 1) == builder.place(i) + if builder.statements[i] is Label {
            0int
        } else {
            1
        },
{
}

/// The offset of a label is that of its last statement.
proof fn lemma_label_offset(statements: Seq<StatementView>, name: Seq<char>, j: int)
    requires
        0 <= j < statements.len(),
        statements[j] == StatementView::Label(name),
        forall|k: int|
            #![trigger statements[k]]
            j < k < statements.len() ==> statements[k] != StatementView::Label(name),
    ensures
        label_offset(statements, name) == Some(code_size(statements.take(j))),
    decreases statements.len(),
{
    if j < statements.len() - 1 {
        let rest = statements.drop_last();
        lemma_label_offset(rest, name, j);
        assert(rest.take(j) =~= statements.take(j));
    }
}

/// A label has no offset if and only if it does not stand among the statements.
proof fn lemma_no_label_offset(statements: Seq<StatementView>, name: Seq<char>)
    ensures
        label_offset(statements, name) is None <==> !statements.contains(
            StatementView::Label(name),
        ),
    decreases statements.len(),
{
    if statements.len() > 0 {
        let rest = statements.drop_last();
        lemma_no_label_offset(rest, name);
        if statements.contains(StatementView::Label(name)) {
            let i = statements.index_of(StatementView::Label(name));
            if i < rest.len() {
                assert(rest[i] == StatementView::Label(name));
            }
        }
    }
}

/// A jump, a conditional jump or a call to a label of the code goes exactly as far as the label is
/// away: from where the jump stands to where the label stands.
pub proof fn law_jumps_reach_their_labels(builder: BuilderView, i: int, j: int)
    requires
        builder.code_wf(),
        0 <= i < builder.statements.len(),
        builder.statements[i] is Jump,
        0 <= j < builder.statements.len(),
        builder.statements[j] == StatementView::Label(builder.statements[i]->Jump_0),
        forall|k: int|
            #![trigger builder.statements[k]]
            j < k < builder.statements.len() ==> builder.statements[k] != builder.statements[j],
    ensures
        builder.code()[builder.place(i)].body.jump_distance() matches Some(distance)
            && builder.position(i) + distance == builder.position(j),
        jumps_further(
            builder.statements[i]->Jump_1.body,
            builder.code()[builder.place(i)].body,
            builder.position(j) - builder.position(i),
        ),
{
    let statements = builder.statements;
    let name = statements[i]->Jump_0;
    lemma_label_offset(statements, name, j);
    lemma_instruction_of_statement(builder, i);
    law_position(builder, i);
    law_position(builder, j);
    law_moved_target(
        statements[i]->Jump_1.body,
        code_size(statements.take(j)) - code_size(statements.take(i)),
    );
}

/// A jump that leaves the code goes by the constant 0, and its label is one of the branches.
pub proof fn law_jumps_leave_to_branches(builder: BuilderView, i: int)
    requires
        builder.code_wf(),
        0 <= i < builder.statements.len(),
        builder.statements[i] is Jump,
        !builder.statements.contains(StatementView::Label(builder.statements[i]->Jump_0)),
    ensures
        builder.code()[builder.place(i)].body.jump_distance() == Some(0int),
        builder.end_states().contains_key(builder.statements[i]->Jump_0),
{
    lemma_no_label_offset(builder.statements, builder.statements[i]->Jump_0);
    lemma_instruction_of_statement(builder, i);
}

/// What the first `n` statements say of the relocations of a label.
proof fn lemma_relocations(builder: BuilderView, n: int, name: Seq<char>)
    requires
        0 <= n <= builder.statements.len(),
        builder.place(n) <= usize::MAX,
        label_offset(builder.statements, name) is None,
    ensures
        ({
            let found = relocations(builder.statements, n, name);
            &&& forall|k: int|
                #![trigger found[k]]
                0 <= k < found.len() ==> found[k] < builder.place(n) && exists|i: int|
                    #![trigger builder.statements[i]]
                    0 <= i < n && builder.statements[i] is Jump && builder.statements[i]->Jump_0
                        == name && builder.place(i) == found[k]
            &&& forall|k: int, l: int|
                #![trigger found[k], found[l]]
                0 <= k < l < found.len() ==> found[k] < found[l]
            &&& forall|i: int|
                #![trigger builder.statements[i]]
                0 <= i < n && builder.statements[i] is Jump && builder.statements[i]->Jump_0 == name
                    ==> found.contains(builder.place(i) as usize)
        }),
    decreases n,
{
    if n > 0 {
        lemma_relocations(builder, n - 1, name);
        let statements = builder.statements;
        let before = relocations(statements, n - 1, name);
        let found = relocations(statements, n, name);
        if statements[n - 1] is Jump && statements[n - 1]->Jump_0 == name {
            assert(found[before.len() as int] == builder.place(n - 1));
            assert forall|i: int|
                #![trigger statements[i]]
                0 <= i < n && statements[i] is Jump && statements[i]->Jump_0
                    == name implies found.contains(builder.place(i) as usize) by {
                if i < n - 1 {
                    let k = before.index_of(builder.place(i) as usize);
                    assert(found[k] == before[k]);
                }
            }
        }
    }
}

/// The relocations of a branch are the places of the jumps to it, in order.
pub proof fn law_relocations_are_the_jumps_to_a_branch(
    builder: BuilderView,
    names: Seq<Seq<char>>,
    b: int,
)
    requires
        builder.can_build(names),
        0 <= b < names.len(),
        builder.code().len() <= usize::MAX,
    ensures
        ({
            let found = builder.build(names).branches[b].1;
            &&& forall|k: int, l: int|
                #![trigger found[k], found[l]]
                0 <= k < l < found.len() ==> found[k] < found[l]
            &&& forall|place: usize| #[trigger]
                found.contains(place) <==> exists|i: int|
                    #![trigger builder.statements[i]]
                    0 <= i < builder.statements.len() && builder.statements[i] is Jump
                        && builder.statements[i]->Jump_0 == names[b] && builder.place(i) == place
        }),
{
    assert(builder.end_states().contains_key(names[b]));
    lemma_relocations(builder, builder.statements.len() as int, names[b]);
}

/// The state of a branch is that of its label, and AP has passed all the variables that it
/// allocated. The branch "Fallthrough" is the end of the code, if that is reached: it has the state
/// there.
pub proof fn law_branch_states(builder: BuilderView, names: Seq<Seq<char>>, b: int)
    requires
        builder.can_build(names),
        0 <= b < names.len(),
    ensures
        ({
            let branch = builder.build(names).branches[b].0;
            &&& builder.build(names).branches.len() == names.len()
            &&& 0 <= branch.allocated && branch.allocated <= branch.ap_change
            &&& if builder.reachable && names[b] == "Fallthrough"@ {
                branch == builder.main_state
            } else {
                &&& builder.label_state.contains_key(names[b])
                &&& branch == builder.label_state[names[b]]
            }
        }),
{
    assert(builder.end_states().contains_key(names[b]));
}

/// Whether the code is left to `name`: a label of that name was reached and does not stand in the
/// code, or the name is that of the end of the code, and the end is reached.
pub open spec fn is_left_to(builder: BuilderView, name: Seq<char>) -> bool {
    &&& !builder.statements.contains(StatementView::Label(name))
    &&& builder.label_state.contains_key(name) || (builder.reachable && name == seq![
        'F',
        'a',
        'l',
        'l',
        't',
        'h',
        'r',
        'o',
        'u',
        'g',
        'h',
    ])
}

/// The code can be built if and only if no hint waits for an instruction, and the names are those
/// that the code is left to, each once, in states whose cells AP has passed.
pub proof fn law_when_build(builder: BuilderView, names: Seq<Seq<char>>)
    requires
        builder.code_wf(),
    ensures
        builder.can_build(names) <==> {
            &&& builder.current_hints.len() == 0
            &&& names.no_duplicates()
            &&& forall|name: Seq<char>| #[trigger]
                names.contains(name) <==> is_left_to(builder, name)
            &&& forall|b: int|
                #![trigger names[b]]
                0 <= b < names.len() ==> {
                    let state = if builder.reachable && names[b] == "Fallthrough"@ {
                        builder.main_state
                    } else {
                        builder.label_state[names[b]]
                    };
                    0 <= state.allocated && state.allocated <= state.ap_change
                }
        },
{
    reveal_strlit("Fallthrough");
    assert("Fallthrough"@ =~= seq!['F', 'a', 'l', 'l', 't', 'h', 'r', 'o', 'u', 'g', 'h']);
    assert forall|name: Seq<char>| #[trigger] builder.end_states().contains_key(name)
        <==> is_left_to(builder, name) by {
        lemma_no_label_offset(builder.statements, name);
    }
    assert forall|i: int|
        #![trigger builder.statements[i]]
        0 <= i < builder.statements.len() && builder.statements[i] is Jump && label_offset(
            builder.statements,
            builder.statements[i]->Jump_0,
        ) is None implies is_left_to(builder, builder.statements[i]->Jump_0) by {
        lemma_no_label_offset(builder.statements, builder.statements[i]->Jump_0);
        assert(builder.statement_wf(builder.statements[i]));
    }
    assert forall|name: Seq<char>| #[trigger]
        builder.end_states().contains_key(name) implies builder.end_states()[name] == (
    if builder.reachable && name == "Fallthrough"@ {
        builder.main_state
    } else {
        builder.label_state[name]
    }) by {}
    if builder.can_build(names) {
        assert forall|name: Seq<char>| #[trigger] names.contains(name) <==> is_left_to(
            builder,
            name,
        ) by {
            assert(builder.end_states().contains_key(name) <==> names.contains(name));
        }
        assert forall|b: int| #![trigger names[b]] 0 <= b < names.len() implies
            builder.end_states().contains_key(names[b]) by {
            assert(names.contains(names[b]));
        }
    }
    if forall|name: Seq<char>| #[trigger] names.contains(name) <==> is_left_to(builder, name) {
        assert forall|name: Seq<char>| #[trigger]
            builder.end_states().contains_key(name) <==> names.contains(name) by {
            assert(names.contains(name) <==> is_left_to(builder, name));
        }
        assert forall|b: int| #![trigger names[b]] 0 <= b < names.len() implies
            builder.end_states().contains_key(names[b]) by {
            assert(names.contains(names[b]));
        }
        assert forall|i: int|
            #![trigger builder.statements[i]]
            0 <= i < builder.statements.len() && builder.statements[i] is Jump && label_offset(
                builder.statements,
                builder.statements[i]->Jump_0,
            ) is None implies names.contains(builder.statements[i]->Jump_0) by {
            assert(is_left_to(builder, builder.statements[i]->Jump_0));
        }
    }
}

/// What is built is the code of the builder.
pub proof fn law_build_gives_the_code(builder: BuilderView, names: Seq<Seq<char>>)
    ensures
        builder.build(names).instructions == builder.code(),
        builder.build(names).branches.len() == names.len(),
{
}

/// The end of the code is reached if and only if the code falls through, unless a label of the code
/// is named "Fallthrough".
pub proof fn law_fallthrough(builder: BuilderView, names: Seq<Seq<char>>)
    requires
        builder.can_build(names),
        !builder.label_state.contains_key("Fallthrough"@),
        !builder.statements.contains(StatementView::Label("Fallthrough"@)),
    ensures
        names.contains("Fallthrough"@) <==> builder.reachable,
{
    lemma_no_label_offset(builder.statements, "Fallthrough"@);
    assert(builder.end_states().contains_key("Fallthrough"@) <==> names.contains("Fallthrough"@));
}

/// The code of the first statements has their hints.
proof fn lemma_assembled_hints(statements: Seq<StatementView>, n: int)
    requires
        0 <= n <= statements.len(),
    ensures
        instructions_hints(assembled(statements, n)) == hints_of(statements, n),
    decreases n,
{
    if n > 0 {
        lemma_assembled_hints(statements, n - 1);
        let before = assembled(statements, n - 1);
        if !(statements[n - 1] is Label) {
            assert(before.push(resolved(statements, n - 1)).drop_last() =~= before);
        }
    }
}

/// The code has all the hints that the builder was given, in their order.
pub proof fn law_code_has_all_hints(builder: BuilderView, names: Seq<Seq<char>>)
    requires
        builder.can_build(names),
    ensures
        instructions_hints(builder.build(names).instructions) == builder.hints(),
{
    lemma_assembled_hints(builder.statements, builder.statements.len() as int);
}

} // verus!
