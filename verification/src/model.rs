//! What a builder holds, and what each of its operations makes of it.

use vstd::prelude::*;

use crate::cell_expression::{CellExpression, CellOperator};
use crate::hints::Hint;
use crate::instructions::{
    AddApInstruction, AssertEqInstruction, CallInstruction, InstructionBody, InstructionView,
    JnzInstruction, JumpInstruction, RetInstruction,
};
use crate::operand::{
    BinOpOperand, CellRef, DerefOrImmediate, Operation, Register, ResOperand,
};
use crate::ordered_map::OrderedMapView;
use crate::state::{StateView, Var};

verus! {

/// The view of a statement of the builder.
#[verifier::ext_equal]
pub enum StatementView {
    /// A final instruction.
    Final(InstructionView),
    /// A jump or call to a label.
    Jump(Seq<char>, InstructionView),
    /// A target label for jumps.
    Label(Seq<char>),
}

/// The view of a builder result.
#[verifier::ext_equal]
pub struct BuildResultView {
    /// The actual casm code.
    pub instructions: Seq<InstructionView>,
    /// The state, and the places of the instructions that jump there, per branch.
    pub branches: Seq<(StateView, Seq<usize>)>,
}

/// The view of a builder.
#[verifier::ext_equal]
pub struct BuilderView {
    /// The state at a point of jumping into a label, per label.
    pub label_state: Map<Seq<char>, StateView>,
    /// The labels that were already read.
    pub read_labels: Set<Seq<char>>,
    /// The state at the last added statement.
    pub main_state: StateView,
    /// The added statements.
    pub statements: Seq<StatementView>,
    /// The hints that the next instruction will take.
    pub current_hints: Seq<Hint>,
    /// The number of variables made.
    pub var_count: int,
    /// Whether the current state is reachable.
    pub reachable: bool,
}

/// The place that a pointer expression points to: a cell that holds an address, and an offset from
/// that address. The value of a pointer is a cell, or a cell plus a constant.
pub open spec fn pointer(value: CellExpression<int>) -> Option<(CellRef, int)> {
    match value {
        CellExpression::Deref(cell) => Some((cell, 0)),
        CellExpression::BinOp {
            op: CellOperator::Add,
            a,
            b: DerefOrImmediate::Immediate(offset),
        } => Some((a, offset)),
        _ => None,
    }
}

/// The pointer `[cell] + offset`.
pub open spec fn pointer_to(cell: CellRef, offset: int) -> CellExpression<int> {
    CellExpression::BinOp {
        op: CellOperator::Add,
        a: cell,
        b: DerefOrImmediate::Immediate(offset),
    }
}

/// The cell that an expression amounts to without computing anything: the expression is that cell,
/// plus or minus 0, or times or over 1.
pub open spec fn trivial_cell(value: CellExpression<int>) -> Option<CellRef> {
    match value {
        CellExpression::Deref(cell) => Some(cell),
        CellExpression::BinOp { op, a, b: DerefOrImmediate::Immediate(imm) } => {
            let neutral: int = match op {
                CellOperator::Add | CellOperator::Sub => 0,
                CellOperator::Mul | CellOperator::Div => 1,
            };
            if imm == neutral {
                Some(a)
            } else {
                None
            }
        },
        _ => None,
    }
}

/// The expression as a cell or a constant.
pub open spec fn deref_or_imm(value: CellExpression<int>) -> Option<DerefOrImmediate<int>> {
    match value {
        CellExpression::Deref(cell) => Some(DerefOrImmediate::Deref(cell)),
        CellExpression::Immediate(imm) => Some(DerefOrImmediate::Immediate(imm)),
        CellExpression::DoubleDeref(_, _) | CellExpression::BinOp { .. } => None,
    }
}

/// The instruction that asserts that the cell `dst` holds `res`. An instruction can only add and
/// multiply, so `dst = a - b` is asserted as `a = dst + b`, and `dst = a / b` as `a = dst * b`.
pub open spec fn assert_eq_body(dst: CellRef, res: CellExpression<int>) -> InstructionBody<int> {
    match res {
        CellExpression::BinOp { op: CellOperator::Sub, a, b } => InstructionBody::AssertEq(
            AssertEqInstruction {
                a,
                b: ResOperand::BinOp(BinOpOperand { op: Operation::Add, a: dst, b }),
            },
        ),
        CellExpression::BinOp { op: CellOperator::Div, a, b } => InstructionBody::AssertEq(
            AssertEqInstruction {
                a,
                b: ResOperand::BinOp(BinOpOperand { op: Operation::Mul, a: dst, b }),
            },
        ),
        _ => InstructionBody::AssertEq(
            AssertEqInstruction { a: dst, b: res.as_res_operand().unwrap() },
        ),
    }
}

/// `[fp - 1] = [fp - 1] + 1`.
pub open spec fn fail_body() -> InstructionBody<int> {
    let cell = CellRef { register: Register::FP, offset: (-1) as i16 };
    InstructionBody::AssertEq(
        AssertEqInstruction {
            a: cell,
            b: ResOperand::BinOp(
                BinOpOperand {
                    op: Operation::Add,
                    a: cell,
                    b: DerefOrImmediate::Immediate(1),
                },
            ),
        },
    )
}

/// Whether the variables with the value `value` are passed to a called function: the constants, the
/// AP based ones, and the sums and other operations of a cell and a constant. An FP based cell with a
/// constant is passed as it is written, although the function has another FP: its value is not that
/// of the caller there.
pub open spec fn passed_to_function(value: CellExpression<int>) -> bool {
    match value {
        CellExpression::Deref(cell) => cell.register == Register::AP,
        CellExpression::DoubleDeref(cell, _) => cell.register == Register::AP,
        CellExpression::Immediate(_) => true,
        CellExpression::BinOp { op: _, a, b } => match b {
            DerefOrImmediate::Deref(cell) => a.register == Register::AP && cell.register
                == Register::AP,
            DerefOrImmediate::Immediate(_) => true,
        },
    }
}

/// Whether the variables with the value `value` outlive a call: the constants and the FP based ones.
pub open spec fn kept_by_caller(value: CellExpression<int>) -> bool {
    match value {
        CellExpression::Deref(cell) => cell.register == Register::FP,
        CellExpression::DoubleDeref(cell, _) => cell.register == Register::FP,
        CellExpression::Immediate(_) => true,
        CellExpression::BinOp { op: _, a, b } => match b {
            DerefOrImmediate::Deref(cell) => a.register == Register::FP && cell.register
                == Register::FP,
            DerefOrImmediate::Immediate(_) => a.register == Register::FP,
        },
    }
}

/// The cell with the same offset from FP.
pub open spec fn fp_based(cell: CellRef) -> CellRef {
    CellRef { register: Register::FP, offset: cell.offset }
}

/// How a called function sees the value `value` of its caller, if AP has grown by `ap_change` when
/// the function begins: the FP of the function is that AP.
pub open spec fn function_value(value: CellExpression<int>, ap_change: int) -> CellExpression<int> {
    match value.ap_changed(ap_change) {
        CellExpression::Deref(cell) => CellExpression::Deref(fp_based(cell)),
        CellExpression::DoubleDeref(cell, offset) => CellExpression::DoubleDeref(
            fp_based(cell),
            offset,
        ),
        CellExpression::Immediate(imm) => CellExpression::Immediate(imm),
        CellExpression::BinOp { op, a, b } => CellExpression::BinOp {
            op,
            a: fp_based(a),
            b: match b {
                DerefOrImmediate::Deref(cell) => DerefOrImmediate::Deref(fp_based(cell)),
                DerefOrImmediate::Immediate(imm) => DerefOrImmediate::Immediate(imm),
            },
        },
    }
}

/// The variables on the left of `vars`, with the values of the variables on the right.
pub open spec fn rescoped(state: StateView, vars: Seq<(Var, Var)>) -> OrderedMapView<
    Var,
    CellExpression<int>,
>
    decreases vars.len(),
{
    if vars.len() == 0 {
        OrderedMapView::empty()
    } else {
        rescoped(state, vars.drop_last()).insert(
            vars.last().0,
            state.value(vars.last().1, true),
        )
    }
}

/// The number of code cells of the instructions among `statements`.
pub open spec fn code_size(statements: Seq<StatementView>) -> nat
    decreases statements.len(),
{
    if statements.len() == 0 {
        0
    } else {
        code_size(statements.drop_last()) + match statements.last() {
            StatementView::Final(inst) => inst.body.size(),
            StatementView::Jump(_, inst) => inst.body.size(),
            StatementView::Label(_) => 0,
        }
    }
}

/// The code offset that the label `name` stands at: that of the last of its statements, if it has
/// one.
pub open spec fn label_offset(statements: Seq<StatementView>, name: Seq<char>) -> Option<nat>
    decreases statements.len(),
{
    if statements.len() == 0 {
        None
    } else if statements.last() == StatementView::Label(name) {
        Some(code_size(statements.drop_last()))
    } else {
        label_offset(statements.drop_last(), name)
    }
}

/// The instruction of the statement number `i`: a jump to a label that stands among the statements
/// goes as far as the label is away.
pub open spec fn resolved(statements: Seq<StatementView>, i: int) -> InstructionView
    recommends
        0 <= i < statements.len(),
        !(statements[i] is Label),
{
    match statements[i] {
        StatementView::Final(inst) => inst,
        StatementView::Jump(name, inst) => match label_offset(statements, name) {
            Some(offset) => InstructionView {
                body: inst.body.moved_target(offset - code_size(statements.take(i))),
                ..inst
            },
            None => inst,
        },
        StatementView::Label(_) => arbitrary(),
    }
}

/// The instructions of the first `n` statements.
pub open spec fn assembled(statements: Seq<StatementView>, n: int) -> Seq<InstructionView>
    decreases n,
{
    if n <= 0 {
        Seq::empty()
    } else if statements[n - 1] is Label {
        assembled(statements, n - 1)
    } else {
        assembled(statements, n - 1).push(resolved(statements, n - 1))
    }
}

/// The places, among the instructions of the first `n` statements, of the jumps to the label `name`,
/// if that label does not stand among the statements.
pub open spec fn relocations(statements: Seq<StatementView>, n: int, name: Seq<char>) -> Seq<usize>
    decreases n,
{
    if n <= 0 {
        Seq::empty()
    } else if label_offset(statements, name) is None && statements[n - 1] is Jump
        && statements[n - 1]->Jump_0 == name {
        relocations(statements, n - 1, name).push(assembled(statements, n - 1).len() as usize)
    } else {
        relocations(statements, n - 1, name)
    }
}

impl BuilderView {
    /// What a new builder holds.
    pub open spec fn initial() -> Self {
        BuilderView {
            label_state: Map::empty(),
            read_labels: Set::empty(),
            main_state: StateView::empty(),
            statements: Seq::empty(),
            current_hints: Seq::empty(),
            var_count: 0,
            reachable: true,
        }
    }

    /// Whether a variable can be added.
    pub open spec fn can_add_var(self) -> bool {
        self.var_count < usize::MAX
    }

    /// The variable that is added next.
    pub open spec fn next_var(self) -> Var {
        Var::spec_new(self.var_count as usize)
    }

    /// A new variable with the value `value`.
    pub open spec fn add_var(self, value: CellExpression<int>) -> Self {
        BuilderView {
            main_state: self.main_state.with_var(self.next_var(), value),
            var_count: self.var_count + 1,
            ..self
        }
    }

    /// Whether a variable can be allocated.
    pub open spec fn can_alloc_var(self) -> bool {
        &&& self.can_add_var()
        &&& self.main_state.allocated < i16::MAX
    }

    /// A new variable in the first cell that is not allocated.
    pub open spec fn alloc_var(self, local_var: bool) -> Self {
        let cell = CellRef {
            offset: self.main_state.allocated as i16,
            register: if local_var {
                Register::FP
            } else {
                Register::AP
            },
        };
        let added = self.add_var(CellExpression::Deref(cell));
        BuilderView {
            main_state: StateView {
                allocated: self.main_state.allocated + 1,
                ..added.main_state
            },
            ..added
        }
    }

    /// Whether `var` can be duplicated.
    pub open spec fn can_duplicate_var(self, var: Var) -> bool {
        &&& self.main_state.has_value(var, false)
        &&& self.can_add_var()
    }

    /// A new variable with the value of `var`.
    pub open spec fn duplicate_var(self, var: Var) -> Self {
        self.add_var(self.main_state.value(var, false))
    }

    /// Whether an instruction can be added here.
    pub open spec fn can_emit(self) -> bool {
        &&& self.reachable
        &&& self.main_state.steps < usize::MAX
    }

    /// Whether the next instruction increments AP: it can, and a cell is allocated that AP has not
    /// passed yet.
    pub open spec fn increments_ap(self, inc_ap_supported: bool) -> bool {
        inc_ap_supported && self.main_state.allocated > self.main_state.ap_change
    }

    /// The next instruction.
    pub open spec fn instruction(
        self,
        body: InstructionBody<int>,
        inc_ap_supported: bool,
    ) -> InstructionView {
        InstructionView {
            body,
            inc_ap: self.increments_ap(inc_ap_supported),
            hints: self.current_hints,
        }
    }

    /// The builder after the next instruction was taken.
    pub open spec fn step(self, inc_ap_supported: bool) -> Self {
        BuilderView {
            main_state: StateView {
                ap_change: self.main_state.ap_change + if self.increments_ap(inc_ap_supported) {
                    1int
                } else {
                    0
                },
                steps: self.main_state.steps + 1,
                ..self.main_state
            },
            current_hints: Seq::empty(),
            ..self
        }
    }

    /// The builder with one more statement.
    pub open spec fn push(self, statement: StatementView) -> Self {
        BuilderView { statements: self.statements.push(statement), ..self }
    }

    /// The builder with an instruction added.
    pub open spec fn emit(self, body: InstructionBody<int>, inc_ap_supported: bool) -> Self {
        self.step(inc_ap_supported).push(
            StatementView::Final(self.instruction(body, inc_ap_supported)),
        )
    }

    /// The builder with a jump or call to a label added.
    pub open spec fn emit_jump(
        self,
        label: Seq<char>,
        body: InstructionBody<int>,
        inc_ap_supported: bool,
    ) -> Self {
        self.step(inc_ap_supported).push(
            StatementView::Jump(label, self.instruction(body, inc_ap_supported)),
        )
    }

    /// Whether `dst = res` can be asserted.
    pub open spec fn can_assert_vars_eq(self, dst: Var, res: Var) -> bool {
        &&& self.main_state.has_cell(dst, true)
        &&& self.main_state.has_value(res, true)
        &&& self.can_emit()
    }

    /// The builder with the assertion `dst = res`.
    pub open spec fn assert_vars_eq(self, dst: Var, res: Var) -> Self {
        self.emit(
            assert_eq_body(self.main_state.cell(dst, true), self.main_state.value(res, true)),
            true,
        )
    }

    /// Whether a hint can read `inputs` and write `outputs`: it reads right hand sides of
    /// instructions, and writes cells.
    pub open spec fn can_add_hint(self, inputs: Seq<Var>, outputs: Seq<Var>) -> bool {
        &&& forall|i: int|
            #![trigger inputs[i]]
            0 <= i < inputs.len() ==> self.main_state.has_value(inputs[i], true)
                && self.main_state.value(inputs[i], true).as_res_operand() is Some
        &&& forall|i: int|
            #![trigger outputs[i]]
            0 <= i < outputs.len() ==> self.main_state.has_cell(outputs[i], true)
    }

    /// What a hint reads.
    pub open spec fn hint_inputs(self, inputs: Seq<Var>) -> Seq<ResOperand<int>> {
        inputs.map_values(
            |var: Var| self.main_state.value(var, true).as_res_operand().unwrap(),
        )
    }

    /// What a hint writes.
    pub open spec fn hint_outputs(self, outputs: Seq<Var>) -> Seq<CellRef> {
        outputs.map_values(|var: Var| self.main_state.cell(var, true))
    }

    /// The builder with one more hint for the next instruction.
    pub open spec fn add_hint(self, hint: Hint) -> Self {
        BuilderView { current_hints: self.current_hints.push(hint), ..self }
    }

    /// Whether `var` is a pointer, and the place `additional_offset` behind the one that it points to
    /// can be addressed.
    pub open spec fn has_pointer(self, var: Var, additional_offset: int) -> bool {
        &&& self.main_state.has_value(var, false)
        &&& pointer(self.main_state.value(var, false)) matches Some((_, offset))
            && i16::MIN <= offset + additional_offset <= i16::MAX
    }

    /// The place that `var` points to.
    pub open spec fn pointer(self, var: Var) -> (CellRef, int) {
        pointer(self.main_state.value(var, false)).unwrap()
    }

    /// The builder with the pointer `buffer` moved to the next place.
    pub open spec fn increment(self, buffer: Var) -> Self {
        let (cell, offset) = self.pointer(buffer);
        BuilderView {
            main_state: self.main_state.with_var(buffer, pointer_to(cell, offset + 1)),
            ..self
        }
    }

    /// Whether the buffer can be moved on, with an offset that an instruction can hold.
    pub open spec fn can_buffer_get_and_inc(self, buffer: Var) -> bool {
        &&& self.has_pointer(buffer, 0)
        &&& self.pointer(buffer).1 < i16::MAX
    }

    /// The builder once the place that the buffer pointed to has a variable and the buffer has moved
    /// on.
    pub open spec fn buffer_location(self, buffer: Var) -> Self {
        let (cell, offset) = self.pointer(buffer);
        self.increment(buffer).add_var(CellExpression::DoubleDeref(cell, offset as i16))
    }

    /// Whether `value` can be written to the buffer.
    pub open spec fn can_buffer_write_and_inc(self, buffer: Var, value: Var) -> bool {
        &&& self.can_buffer_get_and_inc(buffer)
        &&& self.can_add_var()
        &&& self.buffer_location(buffer).can_assert_vars_eq(value, self.next_var())
    }

    /// The builder with `value` written to the buffer, and the buffer moved on.
    pub open spec fn buffer_write_and_inc(self, buffer: Var, value: Var) -> Self {
        self.buffer_location(buffer).assert_vars_eq(value, self.next_var())
    }

    /// Whether the value of `var` can be had in a cell.
    pub open spec fn can_maybe_add_tempvar(self, var: Var) -> bool {
        &&& self.main_state.has_value(var, false)
        &&& match trivial_cell(self.main_state.value(var, false)) {
            Some(_) => self.can_add_var(),
            None => {
                &&& self.can_alloc_var()
                &&& self.alloc_var(false).can_assert_vars_eq(self.next_var(), var)
            },
        }
    }

    /// A new variable that is a cell with the value of `var`: the cell that the value amounts to, or
    /// a new one that is asserted to hold it.
    pub open spec fn maybe_add_tempvar(self, var: Var) -> Self {
        match trivial_cell(self.main_state.value(var, false)) {
            Some(cell) => self.add_var(CellExpression::Deref(cell)),
            None => self.alloc_var(false).assert_vars_eq(self.next_var(), var),
        }
    }

    /// Whether the place that the buffer points to can be read, and the buffer moved on.
    pub open spec fn can_get_ref_and_inc(self, buffer: Var) -> bool {
        &&& self.has_pointer(buffer, 0)
        &&& self.can_add_var()
    }

    /// Whether AP can be increased by an instruction.
    pub open spec fn can_add_ap(self, size: int) -> bool {
        &&& self.can_emit()
        &&& self.main_state.ap_change + size <= usize::MAX
    }

    /// The builder with `ap += size`.
    pub open spec fn add_ap(self, size: int) -> Self {
        let emitted = self.emit(
            InstructionBody::AddAp(AddApInstruction { operand: ResOperand::Immediate(size) }),
            false,
        );
        BuilderView {
            main_state: StateView {
                ap_change: self.main_state.ap_change + size,
                ..emitted.main_state
            },
            ..emitted
        }
    }

    /// Whether the AP change can be increased.
    pub open spec fn can_increase_ap_change(self, amount: int) -> bool {
        &&& self.main_state.ap_change + amount <= usize::MAX
        &&& amount <= i16::MAX
        &&& self.main_state.allocated + amount <= i16::MAX
    }

    /// The builder with `amount` more cells allocated and passed.
    pub open spec fn increase_ap_change(self, amount: int) -> Self {
        BuilderView {
            main_state: StateView {
                ap_change: self.main_state.ap_change + amount,
                allocated: self.main_state.allocated + amount,
                ..self.main_state
            },
            ..self
        }
    }

    /// Whether `lhs op rhs` is an expression: `lhs` is a cell, and `rhs` a cell or a constant.
    pub open spec fn can_bin_op(self, lhs: Var, rhs: Var) -> bool {
        &&& self.main_state.has_cell(lhs, false)
        &&& self.main_state.has_value(rhs, false)
        &&& deref_or_imm(self.main_state.value(rhs, false)) is Some
        &&& self.can_add_var()
    }

    /// A new variable with the value `lhs op rhs`.
    pub open spec fn bin_op(self, op: CellOperator, lhs: Var, rhs: Var) -> Self {
        self.add_var(
            CellExpression::BinOp {
                op,
                a: self.main_state.cell(lhs, false),
                b: deref_or_imm(self.main_state.value(rhs, false)).unwrap(),
            },
        )
    }

    /// Whether `[[var] + offset]` is an expression.
    pub open spec fn can_double_deref(self, var: Var, offset: int) -> bool {
        &&& self.has_pointer(var, offset)
        &&& self.can_add_var()
    }

    /// A new variable with the value `[[var] + offset]`.
    pub open spec fn double_deref(self, var: Var, offset: int) -> Self {
        let (cell, var_offset) = self.pointer(var);
        self.add_var(CellExpression::DoubleDeref(cell, (var_offset + offset) as i16))
    }

    /// Whether the label can be reached in the state `state`.
    pub open spec fn can_reach_label(self, label: Seq<char>, state: StateView) -> bool {
        self.label_state.contains_key(label) ==> self.label_state[label].can_intersect(
            state,
            self.read_labels.contains(label),
        )
    }

    /// The builder with the label reached in the state `state` too.
    pub open spec fn reach_label(self, label: Seq<char>, state: StateView) -> Self {
        BuilderView {
            label_state: self.label_state.insert(
                label,
                if self.label_state.contains_key(label) {
                    self.label_state[label].intersected(state)
                } else {
                    state
                },
            ),
            ..self
        }
    }

    /// The builder with a jump to `label`, before the label is reached.
    pub open spec fn emit_unconditional_jump(self, label: Seq<char>) -> Self {
        self.emit_jump(
            label,
            InstructionBody::Jump(
                JumpInstruction { target: DerefOrImmediate::Immediate(0), relative: true },
            ),
            true,
        )
    }

    /// Whether a jump to `label` can be added.
    pub open spec fn can_jump(self, label: Seq<char>) -> bool {
        let emitted = self.emit_unconditional_jump(label);
        &&& self.can_emit()
        &&& emitted.can_reach_label(label, emitted.main_state)
    }

    /// The builder with a jump to `label`: what comes next is not reached this way.
    pub open spec fn jump(self, label: Seq<char>) -> Self {
        let emitted = self.emit_unconditional_jump(label);
        BuilderView {
            main_state: StateView::empty(),
            reachable: false,
            ..emitted.reach_label(label, emitted.main_state)
        }
    }

    /// The builder with a jump to `label` if `condition != 0`, before the label is reached.
    pub open spec fn emit_jump_nz(self, condition: Var, label: Seq<char>) -> Self {
        self.emit_jump(
            label,
            InstructionBody::Jnz(
                JnzInstruction {
                    condition: self.main_state.cell(condition, true),
                    jump_offset: DerefOrImmediate::Immediate(0),
                },
            ),
            true,
        )
    }

    /// Whether a jump to `label` if `condition != 0` can be added.
    pub open spec fn can_jump_nz(self, condition: Var, label: Seq<char>) -> bool {
        let emitted = self.emit_jump_nz(condition, label);
        &&& self.main_state.has_cell(condition, true)
        &&& self.can_emit()
        &&& emitted.can_reach_label(label, emitted.main_state)
    }

    /// The builder with a jump to `label` if `condition != 0`.
    pub open spec fn jump_nz(self, condition: Var, label: Seq<char>) -> Self {
        let emitted = self.emit_jump_nz(condition, label);
        emitted.reach_label(label, emitted.main_state)
    }

    /// The builder with the label reached from the statement before it, if there is one.
    pub open spec fn fall_into(self, name: Seq<char>) -> Self {
        if self.reachable {
            self.reach_label(name, self.main_state)
        } else {
            self
        }
    }

    /// Whether the label can be added: it is reached from somewhere.
    pub open spec fn can_label(self, name: Seq<char>) -> bool {
        if self.reachable {
            self.can_reach_label(name, self.main_state)
        } else {
            self.label_state.contains_key(name)
        }
    }

    /// The builder with the label added here: its state is the current one, and may not change any
    /// more.
    pub open spec fn label(self, name: Seq<char>) -> Self {
        let reached = self.fall_into(name);
        BuilderView {
            read_labels: reached.read_labels.insert(name),
            main_state: reached.label_state[name],
            statements: reached.statements.push(StatementView::Label(name)),
            reachable: true,
            ..reached
        }
    }

    /// Whether the values of the variables on the right of `vars` can be carried over.
    pub open spec fn can_rescope(self, vars: Seq<(Var, Var)>) -> bool {
        &&& self.main_state.is_final()
        &&& forall|i: int|
            #![trigger vars[i]]
            0 <= i < vars.len() ==> self.main_state.has_value(vars[i].1, true)
    }

    /// The builder at the beginning of a run with only the variables on the left of `vars`, which
    /// have the values of those on the right.
    pub open spec fn rescope(self, vars: Seq<(Var, Var)>) -> Self {
        BuilderView {
            main_state: StateView {
                vars: rescoped(self.main_state, vars),
                ap_change: 0,
                allocated: 0,
                ..self.main_state
            },
            ..self
        }
    }

    /// The state in which a function that is called here begins.
    pub open spec fn function_state(self) -> StateView {
        let ap_change = self.main_state.ap_change + 2;
        StateView {
            vars: self.main_state.vars.select(
                |value: CellExpression<int>| passed_to_function(value),
                |value: CellExpression<int>| function_value(value, ap_change),
            ),
            ..StateView::empty()
        }
    }

    /// The builder after a call to `label`, before the label is reached.
    pub open spec fn emit_call(self, label: Seq<char>) -> Self {
        let emitted = self.emit_jump(
            label,
            InstructionBody::Call(
                CallInstruction { target: DerefOrImmediate::Immediate(0), relative: true },
            ),
            false,
        );
        BuilderView {
            main_state: StateView {
                vars: self.main_state.vars.select(
                    |value: CellExpression<int>| kept_by_caller(value),
                    |value: CellExpression<int>| value,
                ),
                allocated: 0,
                ap_change: 0,
                ..emitted.main_state
            },
            ..emitted
        }
    }

    /// Whether the variables can be passed to a function.
    pub open spec fn can_pass_vars(self) -> bool {
        forall|var: Var| #[trigger]
            self.main_state.vars.map.contains_key(var) && passed_to_function(
                self.main_state.vars.map[var],
            ) ==> self.main_state.ap_change + 2 <= usize::MAX
                && self.main_state.vars.map[var].can_apply_ap_change(
                self.main_state.ap_change + 2,
            )
    }

    /// Whether a call to `label` can be added.
    pub open spec fn can_call(self, label: Seq<char>) -> bool {
        &&& self.main_state.is_final()
        &&& self.can_pass_vars()
        &&& self.can_emit()
        &&& self.can_reach_label(label, self.function_state())
    }

    /// The builder with a call to `label`.
    pub open spec fn call(self, label: Seq<char>) -> Self {
        self.emit_call(label).reach_label(label, self.function_state())
    }

    /// Whether a return can be added.
    pub open spec fn can_ret(self) -> bool {
        &&& self.main_state.is_final()
        &&& self.can_emit()
    }

    /// The builder with a return: what comes next is not reached this way.
    pub open spec fn ret(self) -> Self {
        BuilderView {
            reachable: false,
            ..self.emit(InstructionBody::Ret(RetInstruction {  }), false)
        }
    }

    /// The builder with an assertion that fails: what comes next is not reached this way.
    pub open spec fn fail(self) -> Self {
        BuilderView { reachable: false, ..self.emit(fail_body(), false) }
    }

    /// The states in which the code is left, per label to which it is left: the labels that were
    /// reached and do not stand among the statements, and "Fallthrough" if the end is reached.
    pub open spec fn end_states(self) -> Map<Seq<char>, StateView> {
        let reached = if self.reachable {
            self.label_state.insert("Fallthrough"@, self.main_state)
        } else {
            self.label_state
        };
        reached.filter_keys(|name: Seq<char>| label_offset(self.statements, name) is None)
    }

    /// Whether the code is complete, and is left to `names`, each once, and nowhere else.
    pub open spec fn can_build(self, names: Seq<Seq<char>>) -> bool {
        &&& self.current_hints.len() == 0
        &&& names.no_duplicates()
        &&& forall|name: Seq<char>| #[trigger]
            self.end_states().contains_key(name) <==> names.contains(name)
        &&& forall|i: int|
            #![trigger names[i]]
            0 <= i < names.len() ==> self.end_states()[names[i]].is_final()
        &&& forall|i: int|
            #![trigger self.statements[i]]
            0 <= i < self.statements.len() && self.statements[i] is Jump && label_offset(
                self.statements,
                self.statements[i]->Jump_0,
            ) is None ==> names.contains(self.statements[i]->Jump_0)
    }

    /// The code, with the states and the jumps of the branches `names`.
    pub open spec fn build(self, names: Seq<Seq<char>>) -> BuildResultView {
        let len = self.statements.len() as int;
        BuildResultView {
            instructions: assembled(self.statements, len),
            branches: names.map_values(
                |name: Seq<char>|
                    (self.end_states()[name], relocations(self.statements, len, name)),
            ),
        }
    }
}

/// Each statement takes at most two code cells.
pub proof fn lemma_code_size_bound(statements: Seq<StatementView>)
    ensures
        code_size(statements) <= 2 * statements.len(),
    decreases statements.len(),
{
    if statements.len() > 0 {
        lemma_code_size_bound(statements.drop_last());
    }
}

/// A label stands within the code.
pub proof fn lemma_label_offset_bound(statements: Seq<StatementView>, name: Seq<char>)
    ensures
        label_offset(statements, name) matches Some(offset) ==> offset <= code_size(statements),
    decreases statements.len(),
{
    if statements.len() > 0 {
        lemma_label_offset_bound(statements.drop_last(), name);
    }
}

} // verus!
