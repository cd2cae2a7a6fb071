//! The builder of CASM code.

pub mod checks;
pub mod statements;

use vstd::prelude::*;

use crate::aux_info::AuxiliaryInfoView;
use crate::bigint::BigInt;
use crate::cell_expression::{CellExpression, CellOperator};
use crate::hints::{operands_view, Hint};
use crate::instructions::{
    AddApInstruction, AssertEqInstruction, CallInstruction, Instruction, InstructionBody,
    InstructionView, JnzInstruction, JumpInstruction, RetInstruction,
};
use crate::model::{
    assembled, code_size, deref_or_imm, function_value, kept_by_caller, label_offset,
    lemma_code_size_bound, lemma_label_offset_bound, passed_to_function, pointer, relocations,
    rescoped, BuildResultView, BuilderView, StatementView,
};
use crate::operand::{BinOpOperand, CellRef, DerefOrImmediate, Operation, Register, ResOperand};
use crate::ordered_map::OrderedMap;
use crate::state::StateView;

pub use crate::aux_info::{
    AssertDesc, CasmBuilderAuxiliaryInfo, ConstDesc, ExprDesc, JumpDesc, LabelDesc,
    LibfuncAlgTypeDesc, RetBranchDesc, RetExprDesc, StatementDesc, VarBaseDesc, VarDesc,
};
pub use crate::state::{State, Var};
pub use std::borrow::ToOwned;

verus! {

/// A statement added to the builder.
enum Statement {
    /// A final instruction, no need for further editing.
    Final(Instruction),
    /// A jump or call command, requires fixing the actual target label.
    Jump(String, Instruction),
    /// A target label for jumps.
    Label(String),
}

impl View for Statement {
    type V = StatementView;

    closed spec fn view(&self) -> StatementView {
        match self {
            Statement::Final(inst) => StatementView::Final(inst@),
            Statement::Jump(label, inst) => StatementView::Jump(label@, inst@),
            Statement::Label(name) => StatementView::Label(name@),
        }
    }
}

/// The builder result.
pub struct CasmBuildResult<const BRANCH_COUNT: usize> {
    /// The actual casm code.
    pub instructions: Vec<Instruction>,
    /// The state and relocations per branch.
    pub branches: [(State, Vec<usize>); BRANCH_COUNT],
}

impl<const BRANCH_COUNT: usize> View for CasmBuildResult<BRANCH_COUNT> {
    type V = BuildResultView;

    open spec fn view(&self) -> BuildResultView {
        BuildResultView {
            instructions: instructions_view(self.instructions@),
            branches: self.branches@.map_values(
                |branch: (State, Vec<usize>)| (branch.0@, branch.1@),
            ),
        }
    }
}

/// The views of instructions.
pub open spec fn instructions_view(instructions: Seq<Instruction>) -> Seq<InstructionView> {
    instructions.map_values(|instruction: Instruction| instruction@)
}

/// The views of names.
pub open spec fn names_view(names: Seq<&str>) -> Seq<Seq<char>> {
    names.map_values(|name: &str| name@)
}

spec fn statements_view(statements: Seq<Statement>) -> Seq<StatementView> {
    statements.map_values(|statement: Statement| statement@)
}

/// Builder to more easily write casm code without specifically thinking about ap changes and the
/// sizes of opcodes. What each operation asks for is a `can_` predicate of the view of the builder,
/// and what it does is the function of the same name.
pub struct CasmBuilder {
    /// The state at a point of jumping into a label, per label.
    label_state: OrderedMap<String, State>,
    /// The set of labels that were already read, so cannot be updated.
    read_labels: OrderedMap<String, ()>,
    /// The state at the last added statement.
    main_state: State,
    /// The added statements.
    statements: Vec<Statement>,
    /// The current set of added hints.
    current_hints: Vec<Hint>,
    /// The number of vars created. Used to not reuse var names.
    var_count: usize,
    /// Is the current state reachable.
    /// Example for unreachable state is after a unconditional jump, before any label is stated.
    reachable: bool,
    /// Auxiliary information gathered for verification.
    pub aux_info: Option<CasmBuilderAuxiliaryInfo>,
}

impl View for CasmBuilder {
    type V = BuilderView;

    closed spec fn view(&self) -> BuilderView {
        BuilderView {
            label_state: self.label_state@.map,
            read_labels: self.read_labels@.map.dom(),
            main_state: self.main_state@,
            statements: statements_view(self.statements@),
            current_hints: self.current_hints@,
            var_count: self.var_count as int,
            reachable: self.reachable,
        }
    }
}

impl CasmBuilder {
    /// The auxiliary information.
    pub closed spec fn aux(&self) -> Option<CasmBuilderAuxiliaryInfo> {
        self.aux_info
    }

    /// What the auxiliary information holds.
    pub open spec fn aux_view(&self) -> Option<AuxiliaryInfoView> {
        match self.aux() {
            Some(info) => Some(info@),
            None => None,
        }
    }

    /// Returns the current ap change of the builder.
    /// Useful for manual ap change handling.
    pub fn curr_ap_change(&self) -> (res: usize)
        ensures
            res == self@.main_state.ap_change,
    {
        self.main_state.ap_change
    }

    /// Adds a variable pointing to `value`.
    pub fn add_var(&mut self, value: CellExpression) -> (res: Var)
        requires
            old(self)@.can_add_var(),
        ensures
            res == old(self)@.next_var(),
            final(self)@ == old(self)@.add_var(value@),
            final(self).aux() == old(self).aux(),
    {
        let var = Var::new(self.var_count);
        self.var_count += 1;
        self.main_state.vars.insert(var, value);
        var
    }

    /// Allocates a new variable in memory, either local (FP-based) or temp (AP-based).
    pub fn alloc_var(&mut self, local_var: bool) -> (res: Var)
        requires
            old(self)@.can_alloc_var(),
        ensures
            res == old(self)@.next_var(),
            final(self)@ == old(self)@.alloc_var(local_var),
            final(self).aux() == old(self).aux(),
    {
        let register = if local_var {
            Register::FP
        } else {
            Register::AP
        };
        let var = self.add_var(
            CellExpression::Deref(CellRef { offset: self.main_state.allocated, register }),
        );
        self.main_state.allocated += 1;
        var
    }

    /// Returns an additional variable pointing to the same value.
    pub fn duplicate_var(&mut self, var: Var) -> (res: Var)
        requires
            old(self)@.can_duplicate_var(var),
        ensures
            res == old(self)@.next_var(),
            final(self)@ == old(self)@.duplicate_var(var),
            final(self).aux() == old(self).aux(),
    {
        let value = self.get_value(var, false);
        self.add_var(value)
    }

    /// Returns `var`s value, with fixed ap if `adjust_ap` is true.
    pub fn get_value(&self, var: Var, adjust_ap: bool) -> (res: CellExpression)
        requires
            self@.main_state.has_value(var, adjust_ap),
        ensures
            res@ == self@.main_state.value(var, adjust_ap),
    {
        if adjust_ap {
            self.main_state.get_adjusted(var)
        } else {
            self.main_state.get_value(var)
        }
    }

    /// Returns the current ap change of the builder.
    pub fn get_ap_change(&self) -> (res: usize)
        ensures
            res == self@.main_state.ap_change,
    {
        self.main_state.ap_change
    }

    /// The number of steps at the last added statement.
    pub fn steps(&self) -> (res: usize)
        ensures
            res == self@.main_state.steps,
    {
        self.main_state.steps
    }

    /// Resets the steps counter.
    pub fn reset_steps(&mut self)
        ensures
            final(self)@ == (BuilderView {
                main_state: StateView { steps: 0, ..old(self)@.main_state },
                ..old(self)@
            }),
            final(self).aux() == old(self).aux(),
    {
        self.main_state.steps = 0;
    }

    /// Returns `var`s value as a cell reference, with fixed ap if `adjust_ap` is true.
    fn as_cell_ref(&self, var: Var, adjust_ap: bool) -> (res: CellRef)
        requires
            self@.main_state.has_cell(var, adjust_ap),
        ensures
            res == self@.main_state.cell(var, adjust_ap),
    {
        match self.get_value(var, adjust_ap) {
            CellExpression::Deref(cell) => cell,
            _ => vstd::pervasive::unreached(),
        }
    }

    /// Returns `var`s value as a cell reference or immediate, with fixed ap if `adjust_ap` is true.
    fn as_deref_or_imm(&self, var: Var, adjust_ap: bool) -> (res: DerefOrImmediate)
        requires
            self@.main_state.has_value(var, adjust_ap),
            deref_or_imm(self@.main_state.value(var, adjust_ap)) is Some,
        ensures
            Some(res@) == deref_or_imm(self@.main_state.value(var, adjust_ap)),
    {
        match self.get_value(var, adjust_ap) {
            CellExpression::Deref(cell) => DerefOrImmediate::Deref(cell),
            CellExpression::Immediate(imm) => DerefOrImmediate::Immediate(imm),
            CellExpression::DoubleDeref(_, _)
            | CellExpression::BinOp { .. } => vstd::pervasive::unreached(),
        }
    }

    /// Returns `var`s value as a cell reference plus a small const offset, to which
    /// `additional_offset` is added, with fixed ap if `adjust_ap` is true.
    fn as_cell_ref_plus_const(&self, var: Var, additional_offset: i16, adjust_ap: bool) -> (res: (
        CellRef,
        i16,
    ))
        requires
            self@.main_state.has_value(var, adjust_ap),
            pointer(self@.main_state.value(var, adjust_ap)) matches Some((_, offset))
                && i16::MIN <= offset + additional_offset <= i16::MAX,
        ensures
            pointer(self@.main_state.value(var, adjust_ap)) == Some(
                (res.0, res.1 - additional_offset),
            ),
    {
        match self.get_value(var, adjust_ap) {
            CellExpression::Deref(cell) => (cell, additional_offset),
            CellExpression::BinOp {
                op: CellOperator::Add,
                a,
                b: DerefOrImmediate::Immediate(imm),
            } => (a, imm.plus(additional_offset as i128).to_i16().unwrap()),
            _ => vstd::pervasive::unreached(),
        }
    }

    /// Returns an instruction wrapping the instruction body, and updates the state.
    /// If `inc_ap_supported` may add an `ap++` to the instruction.
    pub(crate) fn next_instruction(&mut self, body: InstructionBody, inc_ap_supported: bool) -> (res:
        Instruction)
        requires
            old(self)@.can_emit(),
        ensures
            res@ == old(self)@.instruction(body@, inc_ap_supported),
            final(self)@ == old(self)@.step(inc_ap_supported),
            final(self).aux() == old(self).aux(),
    {
        let inc_ap = inc_ap_supported && self.main_state.allocated as i128
            > self.main_state.ap_change as i128;
        if inc_ap {
            self.main_state.ap_change += 1;
        }
        self.main_state.steps += 1;
        let mut hints: Vec<Hint> = Vec::new();
        std::mem::swap(&mut hints, &mut self.current_hints);
        Instruction { body, inc_ap, hints }
    }

    /// Adds an instruction.
    fn push_instruction(&mut self, body: InstructionBody, inc_ap_supported: bool)
        requires
            old(self)@.can_emit(),
        ensures
            final(self)@ == old(self)@.emit(body@, inc_ap_supported),
            final(self).aux() == old(self).aux(),
    {
        let instruction = self.next_instruction(body, inc_ap_supported);
        self.statements.push(Statement::Final(instruction));
    }

    /// Adds a hint, generated from `inputs` which are cell refs or immediates, or whatever else the
    /// right hand side of an instruction can be, and `outputs` which must be cell refs.
    pub fn add_hint<
        const INPUTS_COUNT: usize,
        const OUTPUTS_COUNT: usize,
        THint: Into<Hint>,
        F: FnOnce([ResOperand; INPUTS_COUNT], [CellRef; OUTPUTS_COUNT]) -> THint,
    >(&mut self, f: F, inputs: [Var; INPUTS_COUNT], outputs: [Var; OUTPUTS_COUNT])
        requires
            old(self)@.can_add_hint(inputs@, outputs@),
            forall|ins: [ResOperand; INPUTS_COUNT], outs: [CellRef; OUTPUTS_COUNT]|
                operands_view(ins@) == old(self)@.hint_inputs(inputs@) && outs@
                    == old(self)@.hint_outputs(outputs@) ==> #[trigger] call_requires(
                    f,
                    (ins, outs),
                ),
        ensures
            exists|
                ins: [ResOperand; INPUTS_COUNT],
                outs: [CellRef; OUTPUTS_COUNT],
                made: THint,
                hint: Hint,
            |
                {
                    &&& operands_view(ins@) == old(self)@.hint_inputs(inputs@)
                    &&& outs@ == old(self)@.hint_outputs(outputs@)
                    &&& #[trigger] call_ensures(f, (ins, outs), made)
                    &&& #[trigger] call_ensures(<THint as Into<Hint>>::into, (made,), hint)
                    &&& final(self)@ == old(self)@.add_hint(hint)
                },
            final(self).aux() == old(self).aux(),
    {
        let mut ins: Vec<ResOperand> = Vec::new();
        for i in 0..INPUTS_COUNT
            invariant
                *self == *old(self),
                self@.can_add_hint(inputs@, outputs@),
                operands_view(ins@) == self@.hint_inputs(inputs@.take(i as int)),
        {
            let operand = self.get_value(inputs[i], true).to_res_operand().unwrap();
            assert(self@.hint_inputs(inputs@.take(i + 1)) =~= self@.hint_inputs(
                inputs@.take(i as int),
            ).push(operand@));
            ins.push(operand);
        }
        let mut outs: Vec<CellRef> = Vec::new();
        for i in 0..OUTPUTS_COUNT
            invariant
                *self == *old(self),
                self@.can_add_hint(inputs@, outputs@),
                outs@ == self@.hint_outputs(outputs@.take(i as int)),
        {
            outs.push(self.as_cell_ref(outputs[i], true));
        }
        assert(inputs@.take(INPUTS_COUNT as int) =~= inputs@);
        assert(outputs@.take(OUTPUTS_COUNT as int) =~= outputs@);
        let ins = match vec_into_array(ins) {
            Ok(ins) => ins,
            Err(_) => vstd::pervasive::unreached(),
        };
        let outs = match vec_into_array(outs) {
            Ok(outs) => outs,
            Err(_) => vstd::pervasive::unreached(),
        };
        self.current_hints.push(f(ins, outs).into());
    }

    /// Adds an assertion that `dst = res`.
    /// `dst` must be a cell reference.
    pub fn assert_vars_eq(&mut self, dst: Var, res: Var)
        requires
            old(self)@.can_assert_vars_eq(dst, res),
        ensures
            final(self)@ == old(self)@.assert_vars_eq(dst, res),
            final(self).aux() == old(self).aux(),
    {
        let dst_cell = self.as_cell_ref(dst, true);
        let (a, b) = match self.get_value(res, true) {
            CellExpression::Deref(cell) => (dst_cell, ResOperand::Deref(cell)),
            CellExpression::DoubleDeref(cell, offset) => (
                dst_cell,
                ResOperand::DoubleDeref(cell, offset),
            ),
            CellExpression::Immediate(imm) => (dst_cell, ResOperand::Immediate(imm)),
            CellExpression::BinOp { op, a: other, b } => match op {
                CellOperator::Add => (
                    dst_cell,
                    ResOperand::BinOp(BinOpOperand { op: Operation::Add, a: other, b }),
                ),
                CellOperator::Mul => (
                    dst_cell,
                    ResOperand::BinOp(BinOpOperand { op: Operation::Mul, a: other, b }),
                ),
                CellOperator::Sub => (
                    other,
                    ResOperand::BinOp(BinOpOperand { op: Operation::Add, a: dst_cell, b }),
                ),
                CellOperator::Div => (
                    other,
                    ResOperand::BinOp(BinOpOperand { op: Operation::Mul, a: dst_cell, b }),
                ),
            },
        };
        self.push_instruction(InstructionBody::AssertEq(AssertEqInstruction { a, b }), true);
    }

    /// Writes and increments a buffer.
    /// Useful for RangeCheck and similar buffers.
    /// `buffer` must be a cell reference, or a cell reference with a small added constant.
    /// `value` must be a cell reference.
    pub fn buffer_write_and_inc(&mut self, buffer: Var, value: Var)
        requires
            old(self)@.can_buffer_write_and_inc(buffer, value),
        ensures
            final(self)@ == old(self)@.buffer_write_and_inc(buffer, value),
            final(self).aux() == old(self).aux(),
    {
        let (cell, offset) = self.buffer_get_and_inc(buffer);
        let location = self.add_var(CellExpression::DoubleDeref(cell, offset));
        self.assert_vars_eq(value, location);
    }

    /// Writes `var` as a new tempvar and returns it as a variable, unless its value is already
    /// `deref` (which includes trivial calculations as well) so it instead returns a variable
    /// pointing to that location.
    pub fn maybe_add_tempvar(&mut self, var: Var) -> (res: Var)
        requires
            old(self)@.can_maybe_add_tempvar(var),
        ensures
            res == old(self)@.next_var(),
            final(self)@ == old(self)@.maybe_add_tempvar(var),
            final(self).aux() == old(self).aux(),
    {
        let cell = match self.get_value(var, false) {
            CellExpression::Deref(cell) => Some(cell),
            CellExpression::BinOp { op, a, b: DerefOrImmediate::Immediate(imm) } => {
                let neutral = match op {
                    CellOperator::Add | CellOperator::Sub => imm.is_zero(),
                    CellOperator::Mul | CellOperator::Div => imm.is_one(),
                };
                if neutral {
                    Some(a)
                } else {
                    None
                }
            },
            _ => None,
        };
        match cell {
            Some(cell) => self.add_var(CellExpression::Deref(cell)),
            None => {
                let temp = self.alloc_var(false);
                self.assert_vars_eq(temp, var);
                temp
            },
        }
    }

    /// Increments a buffer and allocates and returns variable pointing to its previous value.
    pub fn get_ref_and_inc(&mut self, buffer: Var) -> (res: Var)
        requires
            old(self)@.can_get_ref_and_inc(buffer),
        ensures
            res == old(self)@.next_var(),
            final(self)@ == old(self)@.buffer_location(buffer),
            final(self).aux() == old(self).aux(),
    {
        let (cell, offset) = self.as_cell_ref_plus_const(buffer, 0, false);
        self.main_state.vars.insert(
            buffer,
            CellExpression::BinOp {
                op: CellOperator::Add,
                a: cell,
                b: DerefOrImmediate::Immediate(BigInt::from_i128(offset as i128).plus(1)),
            },
        );
        self.add_var(CellExpression::DoubleDeref(cell, offset))
    }

    /// Increments a buffer and returning the previous value it pointed to.
    /// Useful for writing, reading and referencing values.
    /// `buffer` must be a cell reference, or a cell reference with a small added constant.
    fn buffer_get_and_inc(&mut self, buffer: Var) -> (res: (CellRef, i16))
        requires
            old(self)@.can_buffer_get_and_inc(buffer),
        ensures
            res.0 == old(self)@.pointer(buffer).0,
            res.1 == old(self)@.pointer(buffer).1,
            final(self)@ == old(self)@.increment(buffer),
            final(self).aux() == old(self).aux(),
    {
        let (base, offset) = match self.get_value(buffer, false) {
            CellExpression::Deref(cell) => (cell, 0i16),
            CellExpression::BinOp {
                op: CellOperator::Add,
                a,
                b: DerefOrImmediate::Immediate(imm),
            } => (a, imm.to_i16().unwrap()),
            _ => vstd::pervasive::unreached(),
        };
        self.main_state.vars.insert(
            buffer,
            CellExpression::BinOp {
                op: CellOperator::Add,
                a: base,
                b: DerefOrImmediate::Immediate(BigInt::from_i128((offset + 1) as i128)),
            },
        );
        (base, offset)
    }

    /// Increases AP by `size`.
    pub fn add_ap(&mut self, size: usize)
        requires
            old(self)@.can_add_ap(size as int),
        ensures
            final(self)@ == old(self)@.add_ap(size as int),
            final(self).aux() == old(self).aux(),
    {
        self.push_instruction(
            InstructionBody::AddAp(
                AddApInstruction {
                    operand: ResOperand::Immediate(BigInt::from_i128(size as i128)),
                },
            ),
            false,
        );
        self.main_state.ap_change += size;
    }

    /// Increases the AP change by `amount`, without adding an instruction.
    pub fn increase_ap_change(&mut self, amount: usize)
        requires
            old(self)@.can_increase_ap_change(amount as int),
        ensures
            final(self)@ == old(self)@.increase_ap_change(amount as int),
            final(self).aux() == old(self).aux(),
    {
        self.main_state.ap_change += amount;
        self.main_state.allocated += amount as i16;
    }

    /// Returns a variable that is the `op` of `lhs` and `rhs`.
    /// `lhs` must be a cell reference and `rhs` must be deref or immediate.
    pub fn bin_op(&mut self, op: CellOperator, lhs: Var, rhs: Var) -> (res: Var)
        requires
            old(self)@.can_bin_op(lhs, rhs),
        ensures
            res == old(self)@.next_var(),
            final(self)@ == old(self)@.bin_op(op, lhs, rhs),
            final(self).aux() == old(self).aux(),
    {
        let a = self.as_cell_ref(lhs, false);
        let b = self.as_deref_or_imm(rhs, false);
        self.add_var(CellExpression::BinOp { op, a, b })
    }

    /// Returns a variable that is `[[var] + offset]`.
    /// `var` must be a cell reference, or a cell ref plus a small constant.
    pub fn double_deref(&mut self, var: Var, offset: i16) -> (res: Var)
        requires
            old(self)@.can_double_deref(var, offset as int),
        ensures
            res == old(self)@.next_var(),
            final(self)@ == old(self)@.double_deref(var, offset as int),
            final(self).aux() == old(self).aux(),
    {
        let (cell, full_offset) = self.as_cell_ref_plus_const(var, offset, false);
        self.add_var(CellExpression::DoubleDeref(cell, full_offset))
    }

    /// Sets the label to have the set states, otherwise tests if the state matches the existing one
    /// by merging.
    fn set_or_test_label_state(&mut self, label: String, state: State)
        requires
            old(self)@.can_reach_label(label@, state@),
        ensures
            final(self)@ == old(self)@.reach_label(label@, state@),
            final(self).aux() == old(self).aux(),
    {
        match self.label_state.remove(&label) {
            Some(known) => {
                let mut known = known;
                let read_only = self.read_labels.contains_key(&label);
                known.intersect(&state, read_only);
                self.label_state.insert(label, known);
            },
            None => self.label_state.insert(label, state),
        }
    }

    /// Add a statement to jump to `label`.
    pub fn jump(&mut self, label: String)
        requires
            old(self)@.can_jump(label@),
        ensures
            final(self)@ == old(self)@.jump(label@),
            final(self).aux() == old(self).aux(),
    {
        let instruction = self.next_instruction(
            InstructionBody::Jump(
                JumpInstruction {
                    target: DerefOrImmediate::Immediate(BigInt::from_i128(0)),
                    relative: true,
                },
            ),
            true,
        );
        self.statements.push(Statement::Jump(label.clone(), instruction));
        let mut state = State::default();
        std::mem::swap(&mut state, &mut self.main_state);
        self.set_or_test_label_state(label, state);
        self.reachable = false;
    }

    /// Add a statement to jump to `label` if `condition != 0`.
    /// `condition` must be a cell reference.
    pub fn jump_nz(&mut self, condition: Var, label: String)
        requires
            old(self)@.can_jump_nz(condition, label@),
        ensures
            final(self)@ == old(self)@.jump_nz(condition, label@),
            final(self).aux() == old(self).aux(),
    {
        let cell = self.as_cell_ref(condition, true);
        let instruction = self.next_instruction(
            InstructionBody::Jnz(
                JnzInstruction {
                    condition: cell,
                    jump_offset: DerefOrImmediate::Immediate(BigInt::from_i128(0)),
                },
            ),
            true,
        );
        self.statements.push(Statement::Jump(label.clone(), instruction));
        let state = self.main_state.clone();
        self.set_or_test_label_state(label, state);
    }

    /// Adds a label here named `name`.
    pub fn label(&mut self, name: String)
        requires
            old(self)@.can_label(name@),
        ensures
            final(self)@ == old(self)@.label(name@),
            final(self).aux() == old(self).aux(),
    {
        if self.reachable {
            let state = self.main_state.clone();
            self.set_or_test_label_state(name.clone(), state);
        }
        self.read_labels.insert(name.clone(), ());
        self.main_state = self.label_state.get(&name).unwrap().clone();
        self.statements.push(Statement::Label(name));
        self.reachable = true;
    }

    /// A return statement in the code.
    pub fn ret(&mut self)
        requires
            old(self)@.can_ret(),
        ensures
            final(self)@ == old(self)@.ret(),
            final(self).aux() == old(self).aux(),
    {
        self.push_instruction(InstructionBody::Ret(RetInstruction {  }), false);
        self.reachable = false;
    }

    /// Create an assert that would always fail.
    pub fn fail(&mut self)
        requires
            old(self)@.can_emit(),
        ensures
            final(self)@ == old(self)@.fail(),
            final(self).aux() == old(self).aux(),
    {
        let cell = CellRef { offset: -1, register: Register::FP };
        self.push_instruction(
            InstructionBody::AssertEq(
                AssertEqInstruction {
                    a: cell,
                    b: ResOperand::BinOp(
                        BinOpOperand {
                            op: Operation::Add,
                            a: cell,
                            b: DerefOrImmediate::Immediate(BigInt::one()),
                        },
                    ),
                },
            ),
            false,
        );
        self.reachable = false;
    }

    /// Takes the auxiliary information out.
    pub fn move_aux_info(&mut self) -> (res: Option<CasmBuilderAuxiliaryInfo>)
        ensures
            res == old(self).aux(),
            final(self).aux() is None,
            final(self)@ == old(self)@,
    {
        self.aux_info.take()
    }

    /// Rescoping the values, while ignoring all vars not stated in `vars` and giving the vars on
    /// the left side the values of the vars on the right side.
    pub fn rescope<const VAR_COUNT: usize>(&mut self, vars: [(Var, Var); VAR_COUNT])
        requires
            old(self)@.can_rescope(vars@),
        ensures
            final(self)@ == old(self)@.rescope(vars@),
            final(self).aux() == old(self).aux(),
    {
        let mut values: OrderedMap<Var, CellExpression> = OrderedMap::new();
        for i in 0..VAR_COUNT
            invariant
                self@.can_rescope(vars@),
                values@ == rescoped(self@.main_state, vars@.take(i as int)),
        {
            let (new_var, value_var) = vars[i];
            let value = self.main_state.get_adjusted(value_var);
            assert(vars@.take(i + 1).drop_last() =~= vars@.take(i as int));
            values.insert(new_var, value);
        }
        assert(vars@.take(VAR_COUNT as int) =~= vars@);
        self.main_state.ap_change = 0;
        self.main_state.allocated = 0;
        self.main_state.vars = values;
    }

    /// The variables that are passed to a function called here, as the function sees them, and those
    /// that outlive the call.
    fn split_vars(&self) -> (res: (
        OrderedMap<Var, CellExpression>,
        OrderedMap<Var, CellExpression>,
    ))
        requires
            self@.can_pass_vars(),
        ensures
            res.0@ == self@.function_state().vars,
            res.1@ == self@.main_state.vars.select(
                |value: CellExpression<int>| kept_by_caller(value),
                |value: CellExpression<int>| value,
            ),
    {
        // Vars to be passed to the called function state.
        let mut function_vars: OrderedMap<Var, CellExpression> = OrderedMap::new();
        // FP based vars which will remain in the current state.
        let mut main_vars: OrderedMap<Var, CellExpression> = OrderedMap::new();
        let ap_change = self.main_state.ap_change;
        let var_count = self.main_state.vars.len();
        let ghost vars = self.main_state.vars@;
        let ghost pass = |value: CellExpression<int>| passed_to_function(value);
        let ghost passed = |value: CellExpression<int>| function_value(value, ap_change + 2);
        let ghost keep = |value: CellExpression<int>| kept_by_caller(value);
        let ghost kept = |value: CellExpression<int>| value;
        proof {
            use_type_invariant(&self.main_state.vars);
            vars.lemma_select_first(0, pass, passed);
            vars.lemma_select_first(0, keep, kept);
        }
        for i in 0..var_count
            invariant
                self@.can_pass_vars(),
                vars == self.main_state.vars@,
                vars.wf(),
                var_count == vars.keys.len(),
                ap_change == self.main_state.ap_change,
                pass == (|value: CellExpression<int>| passed_to_function(value)),
                passed == (|value: CellExpression<int>| function_value(value, ap_change + 2)),
                keep == (|value: CellExpression<int>| kept_by_caller(value)),
                kept == (|value: CellExpression<int>| value),
                function_vars@ == vars.select_first(i as int, pass, passed),
                main_vars@ == vars.select_first(i as int, keep, kept),
        {
            let (var, value) = self.main_state.vars.entry(i);
            proof {
                vars.lemma_select_first(i as int, pass, passed);
                vars.lemma_select_first(i as int, keep, kept);
            }
            assert(self@.main_state.vars.map.contains_key(*var));
            let (function_var, main_var) = call_flags(value);
            if function_var {
                // Apply ap change (+2 because of the call statement) and change to FP based before
                // the function call.
                function_vars.insert(*var, to_function_value(value.clone(), ap_change + 2));
            }
            if main_var {
                main_vars.insert(*var, value.clone());
            }
        }
        proof {
            vars.lemma_select_first(0, pass, passed);
            vars.lemma_select_first(0, keep, kept);
        }
        (function_vars, main_vars)
    }

    /// Adds a call command to 'label'. All AP based variables are passed to the called function
    /// state and dropped from the calling function state. Constants are in both states, and so is an
    /// FP based cell with a constant; the other FP based variables remain in the calling function
    /// state only.
    pub fn call(&mut self, label: String)
        requires
            old(self)@.can_call(label@),
        ensures
            final(self)@ == old(self)@.call(label@),
            final(self).aux() == old(self).aux(),
    {
        let (function_vars, main_vars) = self.split_vars();
        let instruction = self.next_instruction(
            InstructionBody::Call(
                CallInstruction {
                    relative: true,
                    target: DerefOrImmediate::Immediate(BigInt::from_i128(0)),
                },
            ),
            false,
        );
        self.statements.push(Statement::Jump(label.clone(), instruction));
        self.main_state.vars = main_vars;
        self.main_state.allocated = 0;
        self.main_state.ap_change = 0;
        let mut function_state = State::default();
        function_state.vars = function_vars;
        self.set_or_test_label_state(label, function_state);
    }
}

/// Whether the variables with the value `value` are passed to a called function, and whether they
/// outlive the call.
fn call_flags(value: &CellExpression) -> (res: (bool, bool))
    ensures
        res.0 == passed_to_function(value@),
        res.1 == kept_by_caller(value@),
{
    match value {
        CellExpression::DoubleDeref(cell, _) | CellExpression::Deref(cell) => {
            (cell.register == Register::AP, cell.register == Register::FP)
        },
        CellExpression::Immediate(_) => (true, true),
        CellExpression::BinOp { op: _, a, b } => match b {
            DerefOrImmediate::Deref(cell) => {
                if a.register == cell.register {
                    (cell.register == Register::AP, cell.register == Register::FP)
                } else {
                    // Mixed FP and AP based, dropped from both states.
                    (false, false)
                }
            },
            DerefOrImmediate::Immediate(_) => (true, a.register == Register::FP),
        },
    }
}

/// The value `value` of a caller as the called function sees it.
fn to_function_value(value: CellExpression, ap_change: usize) -> (res: CellExpression)
    requires
        value@.can_apply_ap_change(ap_change as int),
    ensures
        res@ == function_value(value@, ap_change as int),
{
    match value.unchecked_apply_known_ap_change(ap_change) {
        CellExpression::Deref(cell) => CellExpression::Deref(
            CellRef { register: Register::FP, offset: cell.offset },
        ),
        CellExpression::DoubleDeref(cell, offset) => CellExpression::DoubleDeref(
            CellRef { register: Register::FP, offset: cell.offset },
            offset,
        ),
        CellExpression::Immediate(imm) => CellExpression::Immediate(imm),
        CellExpression::BinOp { op, a, b } => CellExpression::BinOp {
            op,
            a: CellRef { register: Register::FP, offset: a.offset },
            b: match b {
                DerefOrImmediate::Deref(cell) => DerefOrImmediate::Deref(
                    CellRef { register: Register::FP, offset: cell.offset },
                ),
                DerefOrImmediate::Immediate(imm) => DerefOrImmediate::Immediate(imm),
            },
        },
    }
}

impl CasmBuilder {
    /// Finalizes the builder, with the requested labels as the returning branches.
    /// "Fallthrough" is a special case for the fallthrough case.
    pub fn build<const BRANCH_COUNT: usize>(self, branch_names: [&str; BRANCH_COUNT]) -> (res:
        CasmBuildResult<BRANCH_COUNT>)
        requires
            self@.can_build(names_view(branch_names@)),
        ensures
            res@ == self@.build(names_view(branch_names@)),
    {
        let ghost names = names_view(branch_names@);
        let ghost view = self@;
        let label_offsets = compute_label_offsets(&self.statements);
        let CasmBuilder { label_state, main_state, statements, reachable, .. } = self;
        let mut label_state = label_state;
        if reachable {
            label_state.insert("Fallthrough".to_owned(), main_state);
        }
        let ghost raw = statements@;
        let ghost all = statements_view(raw);
        let ghost reached = label_state@.map;
        let mut instructions: Vec<Instruction> = Vec::new();
        let mut branch_relocations: OrderedMap<String, Vec<usize>> = OrderedMap::new();
        let mut offset: i128 = 0;
        proof {
            assert(raw.len() == statements.len());
            assert(reached.filter_keys(
                |name: Seq<char>| label_offset(all.take(0), name) is None,
            ) =~= reached);
        }
        for statement in it: statements.into_iter()
            invariant
                it.seq() == raw,
                raw.len() <= usize::MAX,
                all == statements_view(raw),
                offset == code_size(all.take(it.index() as int)),
                forall|name: Seq<char>| #[trigger]
                    label_offsets@.map.contains_key(name) <==> label_offset(all, name) is Some,
                forall|name: Seq<char>| #[trigger]
                    label_offsets@.map.contains_key(name) ==> label_offsets@.map[name]
                        == label_offset(all, name)->0,
                instructions_view(instructions@) == assembled(all, it.index() as int),
                label_state@.map == reached.filter_keys(
                    |name: Seq<char>| label_offset(all.take(it.index() as int), name) is None,
                ),
                forall|name: Seq<char>| #[trigger]
                    branch_relocations@.map.contains_key(name) ==> branch_relocations@.map[name]
                        == relocations(all, it.index() as int, name),
                forall|name: Seq<char>| !(#[trigger] branch_relocations@.map.contains_key(name))
                    ==> relocations(all, it.index() as int, name) == Seq::<usize>::empty(),
        {
            let ghost i = it.index() as int;
            proof {
                assert(all.take(i + 1).drop_last() =~= all.take(i));
                lemma_code_size_bound(all.take(i));
                lemma_code_size_bound(all.take(i + 1));
                lemma_code_size_bound(all);
            }
            match statement {
                Statement::Final(inst) => {
                    offset += inst.body.op_size() as i128;
                    instructions.push(inst);
                },
                Statement::Jump(label, inst) => {
                    let mut inst = inst;
                    match label_offsets.get(&label) {
                        Some(label_offset) => {
                            proof {
                                lemma_label_offset_bound(all, label@);
                            }
                            inst.body = inst.body.move_target(*label_offset - offset);
                        },
                        None => {
                            let mut places = match branch_relocations.remove(&label) {
                                Some(places) => places,
                                None => Vec::new(),
                            };
                            places.push(instructions.len());
                            branch_relocations.insert(label, places);
                        },
                    }
                    offset += inst.body.op_size() as i128;
                    instructions.push(inst);
                },
                Statement::Label(name) => {
                    label_state.remove(&name);
                },
            }
            assert(label_state@.map =~= reached.filter_keys(
                |name: Seq<char>| label_offset(all.take(i + 1), name) is None,
            ));
        }
        assert(all.take(all.len() as int) =~= all);
        assert(label_state@.map =~= view.end_states());
        assert(names.skip(0) =~= names);
        let mut branches: Vec<(State, Vec<usize>)> = Vec::new();
        for i in 0..BRANCH_COUNT
            invariant
                view.can_build(names),
                names == names_view(branch_names@),
                names.len() == BRANCH_COUNT,
                all == view.statements,
                branches@.len() == i,
                forall|name: Seq<char>| #[trigger]
                    label_state@.map.contains_key(name) <==> names.skip(i as int).contains(name),
                forall|name: Seq<char>| #[trigger]
                    label_state@.map.contains_key(name) ==> label_state@.map[name]
                        == view.end_states()[name],
                forall|j: int|
                    #![trigger names[j]]
                    i <= j < names.len() ==> relocations(all, all.len() as int, names[j]) == (
                    if branch_relocations@.map.contains_key(names[j]) {
                        branch_relocations@.map[names[j]]
                    } else {
                        Seq::empty()
                    }),
                forall|j: int|
                    #![trigger branches@[j]]
                    0 <= j < i ==> branches@[j].0@ == view.end_states()[names[j]]
                        && branches@[j].1@ == relocations(all, all.len() as int, names[j]),
        {
            let name = branch_names[i].to_owned();
            assert(names.skip(i as int)[0] == name@);
            let state = label_state.remove(&name).unwrap();
            let places = match branch_relocations.remove(&name) {
                Some(places) => places,
                None => Vec::new(),
            };
            branches.push((state, places));
            proof {
                let rest = names.skip(i + 1);
                assert forall|n: Seq<char>|
                    rest.contains(n) <==> names.skip(i as int).contains(n) && n != name@ by {
                    if rest.contains(n) {
                        let j = rest.index_of(n);
                        assert(names.skip(i as int)[j + 1] == n);
                    }
                    if names.skip(i as int).contains(n) && n != name@ {
                        let j = names.skip(i as int).index_of(n);
                        assert(rest[j - 1] == n);
                    }
                }
            }
        }
        let branches = match vec_into_array(branches) {
            Ok(branches) => branches,
            Err(_) => vstd::pervasive::unreached(),
        };
        CasmBuildResult { instructions, branches }
    }
}

/// `TryFrom<Vec<T>>` of `[T; N]`: the array with the contents of the vector if there are `N` of
/// them, the vector itself otherwise.
#[verifier::external_body]
fn vec_into_array<T, const N: usize>(vec: Vec<T>) -> (res: Result<[T; N], Vec<T>>)
    ensures
        match res {
            Ok(array) => vec@.len() == N && array@ == vec@,
            Err(other) => vec@.len() != N && other == vec,
        },
{
    <[T; N]>::try_from(vec)
}

/// Computes the code offsets of all the labels.
fn compute_label_offsets(statements: &Vec<Statement>) -> (res: OrderedMap<String, i128>)
    ensures
        forall|name: Seq<char>| #[trigger]
            res@.map.contains_key(name) <==> label_offset(
                statements_view(statements@),
                name,
            ) is Some,
        forall|name: Seq<char>| #[trigger]
            res@.map.contains_key(name) ==> res@.map[name] == label_offset(
                statements_view(statements@),
                name,
            )->0,
{
    let mut label_offsets: OrderedMap<String, i128> = OrderedMap::new();
    let mut offset: i128 = 0;
    let len = statements.len();
    let ghost all = statements_view(statements@);
    for i in 0..len
        invariant
            len == statements@.len(),
            all == statements_view(statements@),
            offset == code_size(all.take(i as int)),
            forall|name: Seq<char>| #[trigger]
                label_offsets@.map.contains_key(name) <==> label_offset(
                    all.take(i as int),
                    name,
                ) is Some,
            forall|name: Seq<char>| #[trigger]
                label_offsets@.map.contains_key(name) ==> label_offsets@.map[name] == label_offset(
                    all.take(i as int),
                    name,
                )->0,
    {
        proof {
            assert(all.take(i + 1).drop_last() =~= all.take(i as int));
            lemma_code_size_bound(all.take(i as int));
        }
        match &statements[i] {
            Statement::Final(inst) | Statement::Jump(_, inst) => {
                offset += inst.body.op_size() as i128;
            },
            Statement::Label(name) => {
                label_offsets.insert(name.clone(), offset);
            },
        }
    }
    assert(all.take(len as int) =~= all);
    label_offsets
}

impl Default for CasmBuilder {
    fn default() -> (res: Self)
        ensures
            res@ == BuilderView::initial(),
            res.aux() is Some,
            res.aux()->0@ == AuxiliaryInfoView::empty(),
    {
        CasmBuilder {
            label_state: OrderedMap::new(),
            read_labels: OrderedMap::new(),
            main_state: State::default(),
            statements: Vec::new(),
            current_hints: Vec::new(),
            var_count: 0,
            reachable: true,
            aux_info: Some(CasmBuilderAuxiliaryInfo::default()),
        }
    }
}

} // verus!
