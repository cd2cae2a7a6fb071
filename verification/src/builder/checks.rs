//! Whether the builder can take an operation.

use vstd::prelude::*;

use super::{call_flags, compute_label_offsets, names_view, CasmBuilder, Statement};
use crate::cell_expression::{CellExpression, CellOperator};
use crate::model::{deref_or_imm, label_offset, passed_to_function};
use crate::operand::{CellRef, DerefOrImmediate, Register};
use crate::ordered_map::{Key, OrderedMap};
use crate::state::{State, StateView, Var};

verus! {

/// The expression as a cell or a constant.
fn as_deref_or_imm(value: CellExpression) -> (res: Option<DerefOrImmediate>)
    ensures
        res is Some <==> deref_or_imm(value@) is Some,
        res matches Some(operand) ==> Some(operand@) == deref_or_imm(value@),
{
    match value {
        CellExpression::Deref(cell) => Some(DerefOrImmediate::Deref(cell)),
        CellExpression::Immediate(imm) => Some(DerefOrImmediate::Immediate(imm)),
        CellExpression::DoubleDeref(_, _) | CellExpression::BinOp { .. } => None,
    }
}

impl CasmBuilder {
    /// Whether the builder knows `var`, and can write its value with fixed ap if `adjust_ap`.
    pub fn has_value(&self, var: Var, adjust_ap: bool) -> (res: bool)
        ensures
            res == self@.main_state.has_value(var, adjust_ap),
    {
        self.main_state.find_value(var, adjust_ap).is_some()
    }

    /// Whether a variable can be added.
    pub fn can_add_var(&self) -> (res: bool)
        ensures
            res == self@.can_add_var(),
    {
        self.var_count < usize::MAX
    }

    /// Whether a variable can be allocated.
    pub fn can_alloc_var(&self) -> (res: bool)
        ensures
            res == self@.can_alloc_var(),
    {
        self.can_add_var() && self.main_state.allocated < i16::MAX
    }

    /// Whether `var` can be duplicated.
    pub fn can_duplicate_var(&self, var: Var) -> (res: bool)
        ensures
            res == self@.can_duplicate_var(var),
    {
        self.has_value(var, false) && self.can_add_var()
    }

    /// Whether an instruction can be added here.
    pub fn can_emit(&self) -> (res: bool)
        ensures
            res == self@.can_emit(),
    {
        self.reachable && self.main_state.steps < usize::MAX
    }

    /// Whether `dst = res` can be asserted.
    pub fn can_assert_vars_eq(&self, dst: Var, res: Var) -> (can: bool)
        ensures
            can == self@.can_assert_vars_eq(dst, res),
    {
        self.main_state.find_cell(dst, true).is_some() && self.has_value(res, true)
            && self.can_emit()
    }

    /// Whether it can be asserted that `dst` is `value`, an expression that is no cell, once a
    /// variable stands for it.
    fn can_assert_new(&self, dst: Var, value: CellExpression) -> (res: bool)
        requires
            !(value@ is Deref),
        ensures
            res == self@.add_var(value@).can_assert_vars_eq(dst, self@.next_var()),
    {
        let next = Var::new(self.var_count);
        dst != next && self.main_state.find_cell(dst, true).is_some()
            && value.apply_known_ap_change(self.main_state.ap_change).is_some() && self.can_emit()
    }

    /// The place `additional_offset` behind the one that `var` points to, if it can be addressed.
    fn find_pointer(&self, var: Var, additional_offset: i16) -> (res: Option<(CellRef, i16)>)
        ensures
            res is Some <==> self@.has_pointer(var, additional_offset as int),
            res matches Some((cell, offset)) ==> cell == self@.pointer(var).0 && offset
                == self@.pointer(var).1 + additional_offset,
    {
        match self.main_state.find_value(var, false) {
            Some(CellExpression::Deref(cell)) => Some((cell, additional_offset)),
            Some(
                CellExpression::BinOp {
                    op: CellOperator::Add,
                    a,
                    b: DerefOrImmediate::Immediate(imm),
                },
            ) => match imm.plus(additional_offset as i128).to_i16() {
                Some(offset) => Some((a, offset)),
                None => None,
            },
            _ => None,
        }
    }

    /// The value of `lhs op rhs`, if it is an expression.
    fn find_bin_op(&self, op: CellOperator, lhs: Var, rhs: Var) -> (res: Option<CellExpression>)
        ensures
            res is Some <==> self@.can_bin_op(lhs, rhs),
            res matches Some(value) ==> value@ is BinOp && self@.bin_op(op, lhs, rhs)
                == self@.add_var(value@),
    {
        if !self.can_add_var() {
            return None;
        }
        match (self.main_state.find_cell(lhs, false), self.main_state.find_value(rhs, false)) {
            (Some(a), Some(b)) => match as_deref_or_imm(b) {
                Some(b) => Some(CellExpression::BinOp { op, a, b }),
                None => None,
            },
            _ => None,
        }
    }

    /// Whether `lhs op rhs` is an expression.
    pub fn can_bin_op(&self, lhs: Var, rhs: Var) -> (res: bool)
        ensures
            res == self@.can_bin_op(lhs, rhs),
    {
        self.find_bin_op(CellOperator::Add, lhs, rhs).is_some()
    }

    /// Whether `dst = a op b` can be asserted.
    pub fn can_assert_op(&self, dst: Var, a: Var, op: CellOperator, b: Var) -> (res: bool)
        ensures
            res == self@.can_assert_op(dst, a, op, b),
    {
        match self.find_bin_op(op, a, b) {
            Some(value) => self.can_assert_new(dst, value),
            None => false,
        }
    }

    /// Whether `[[var] + offset]` is an expression.
    pub fn can_double_deref(&self, var: Var, offset: i16) -> (res: bool)
        ensures
            res == self@.can_double_deref(var, offset as int),
    {
        self.find_pointer(var, offset).is_some() && self.can_add_var()
    }

    /// Whether `dst = [buffer + offset]` can be asserted.
    pub fn can_assert_at(&self, dst: Var, buffer: Var, offset: i16) -> (res: bool)
        ensures
            res == self@.can_assert_at(dst, buffer, offset as int),
    {
        match self.find_pointer(buffer, offset) {
            Some((cell, full_offset)) => self.can_add_var() && self.can_assert_new(
                dst,
                CellExpression::DoubleDeref(cell, full_offset),
            ),
            None => false,
        }
    }

    /// Whether the place that the buffer points to can be read, and the buffer moved on.
    pub fn can_get_ref_and_inc(&self, buffer: Var) -> (res: bool)
        ensures
            res == self@.can_get_ref_and_inc(buffer),
    {
        self.can_double_deref(buffer, 0)
    }

    /// Whether `value` can be written to the buffer.
    pub fn can_buffer_write_and_inc(&self, buffer: Var, value: Var) -> (res: bool)
        ensures
            res == self@.can_buffer_write_and_inc(buffer, value),
    {
        match self.find_pointer(buffer, 0) {
            Some((cell, offset)) => offset < i16::MAX && self.can_add_var() && value != buffer
                && self.can_assert_new(value, CellExpression::DoubleDeref(cell, offset)),
            None => false,
        }
    }

    /// Whether the value of `var` can be had in a cell.
    pub fn can_maybe_add_tempvar(&self, var: Var) -> (res: bool)
        ensures
            res == self@.can_maybe_add_tempvar(var),
    {
        let trivial = match self.main_state.find_value(var, false) {
            None => return false,
            Some(CellExpression::Deref(_)) => true,
            Some(CellExpression::BinOp { op, a: _, b: DerefOrImmediate::Immediate(imm) }) => {
                match op {
                    CellOperator::Add | CellOperator::Sub => imm.is_zero(),
                    CellOperator::Mul | CellOperator::Div => imm.is_one(),
                }
            },
            _ => false,
        };
        if trivial {
            self.can_add_var()
        } else {
            let cell = CellRef { offset: self.main_state.allocated, register: Register::AP };
            self.can_alloc_var() && cell.apply_known_ap_change(self.main_state.ap_change).is_some()
                && (var == Var::new(self.var_count) || self.has_value(var, true))
                && self.can_emit()
        }
    }

    /// Whether AP can be increased by an instruction.
    pub fn can_add_ap(&self, size: usize) -> (res: bool)
        ensures
            res == self@.can_add_ap(size as int),
    {
        self.can_emit() && self.main_state.ap_change <= usize::MAX - size
    }

    /// Whether the AP change can be increased.
    pub fn can_increase_ap_change(&self, amount: usize) -> (res: bool)
        ensures
            res == self@.can_increase_ap_change(amount as int),
    {
        self.main_state.ap_change <= usize::MAX - amount && amount <= 0x7fff
            && self.main_state.allocated as i32 + amount as i32 <= 0x7fff
    }

    /// Whether the label can be reached with these variables, AP change and steps.
    fn can_reach_label(
        &self,
        label: &str,
        vars: &OrderedMap<Var, CellExpression>,
        allocated: i16,
        ap_change: usize,
        steps: usize,
    ) -> (res: bool)
        ensures
            res == self@.can_reach_label(
                label@,
                StateView {
                    vars: vars@,
                    allocated: allocated as int,
                    ap_change: ap_change as int,
                    steps: steps as int,
                },
            ),
    {
        let label = label.to_owned();
        match self.label_state.get(&label) {
            Some(state) => state.agrees_with(
                vars,
                allocated,
                ap_change,
                steps,
                self.read_labels.contains_key(&label),
            ),
            None => true,
        }
    }

    /// Whether the label can be reached by an instruction that is added here.
    fn can_reach_label_next(&self, label: &str) -> (res: bool)
        requires
            self@.can_emit(),
        ensures
            res == self@.can_reach_label(label@, self@.step(true).main_state),
    {
        let state = &self.main_state;
        let ap_change = if state.allocated as i128 > state.ap_change as i128 {
            state.ap_change + 1
        } else {
            state.ap_change
        };
        self.can_reach_label(label, &state.vars, state.allocated, ap_change, state.steps + 1)
    }

    /// Whether a jump to `label` can be added.
    pub fn can_jump(&self, label: &str) -> (res: bool)
        ensures
            res == self@.can_jump(label@),
    {
        self.can_emit() && self.can_reach_label_next(label)
    }

    /// Whether a jump to `label` if `condition != 0` can be added.
    pub fn can_jump_nz(&self, condition: Var, label: &str) -> (res: bool)
        ensures
            res == self@.can_jump_nz(condition, label@),
    {
        self.main_state.find_cell(condition, true).is_some() && self.can_jump(label)
    }

    /// Whether the label can be added.
    pub fn can_label(&self, name: &str) -> (res: bool)
        ensures
            res == self@.can_label(name@),
    {
        if self.reachable {
            let state = &self.main_state;
            self.can_reach_label(name, &state.vars, state.allocated, state.ap_change, state.steps)
        } else {
            self.label_state.contains_key(&name.to_owned())
        }
    }

    /// Whether the values of the variables on the right of `vars` can be carried over.
    pub fn can_rescope(&self, vars: &[(Var, Var)]) -> (res: bool)
        ensures
            res == self@.can_rescope(vars@),
    {
        if !self.main_state.validate_finality() {
            return false;
        }
        for i in 0..vars.len()
            invariant
                forall|j: int|
                    #![trigger vars@[j]]
                    0 <= j < i ==> self@.main_state.has_value(vars@[j].1, true),
        {
            if !self.has_value(vars[i].1, true) {
                return false;
            }
        }
        true
    }

    /// Whether the variables can be passed to a function.
    fn can_pass_vars(&self) -> (res: bool)
        ensures
            res == self@.can_pass_vars(),
    {
        let vars = &self.main_state.vars;
        let len = vars.len();
        proof {
            use_type_invariant(vars);
        }
        for i in 0..len
            invariant
                vars == self.main_state.vars,
                vars@.wf(),
                len == vars@.keys.len(),
                forall|j: int|
                    #![trigger vars@.keys[j]]
                    0 <= j < i && passed_to_function(vars@.map[vars@.keys[j]])
                        ==> self@.main_state.ap_change + 2 <= usize::MAX
                        && vars@.map[vars@.keys[j]].can_apply_ap_change(
                        self@.main_state.ap_change + 2,
                    ),
        {
            let (var, value) = vars.entry(i);
            assert(self@.main_state.vars.map.contains_key(*var));
            if call_flags(value).0 && (self.main_state.ap_change > usize::MAX - 2
                || value.clone().apply_known_ap_change(self.main_state.ap_change + 2).is_none()) {
                return false;
            }
        }
        true
    }

    /// Whether a call to `label` can be added.
    pub fn can_call(&self, label: &str) -> (res: bool)
        ensures
            res == self@.can_call(label@),
    {
        if self.main_state.validate_finality() && self.can_pass_vars() && self.can_emit() {
            let (function_vars, _) = self.split_vars();
            self.can_reach_label(label, &function_vars, 0, 0, 0)
        } else {
            false
        }
    }

    /// Whether `count` values that a function returned can have variables.
    pub fn can_return(&self, count: usize) -> (res: bool)
        ensures
            res == self@.can_return(count as int),
    {
        count <= 0x7fff && self.var_count <= usize::MAX - count
    }

    /// Whether a return can be added.
    pub fn can_ret(&self) -> (res: bool)
        ensures
            res == self@.can_ret(),
    {
        self.main_state.validate_finality() && self.can_emit()
    }

    /// Whether a hint can read `inputs` and write `outputs`.
    pub fn can_add_hint(&self, inputs: &[Var], outputs: &[Var]) -> (res: bool)
        ensures
            res == self@.can_add_hint(inputs@, outputs@),
    {
        for i in 0..inputs.len()
            invariant
                forall|j: int|
                    #![trigger inputs@[j]]
                    0 <= j < i ==> self@.main_state.has_value(inputs@[j], true)
                        && self@.main_state.value(inputs@[j], true).as_res_operand() is Some,
        {
            let readable = match self.main_state.find_value(inputs[i], true) {
                Some(value) => value.to_res_operand().is_some(),
                None => false,
            };
            if !readable {
                assert(!(self@.main_state.has_value(inputs@[i as int], true)
                    && self@.main_state.value(inputs@[i as int], true).as_res_operand() is Some));
                return false;
            }
        }
        for i in 0..outputs.len()
            invariant
                forall|j: int|
                    #![trigger outputs@[j]]
                    0 <= j < i ==> self@.main_state.has_cell(outputs@[j], true),
        {
            if self.main_state.find_cell(outputs[i], true).is_none() {
                return false;
            }
        }
        true
    }

    /// The state in which the code is left to `name`, if it is.
    fn find_end_state(&self, label_offsets: &OrderedMap<String, i128>, name: &String) -> (res:
        Option<&State>)
        requires
            forall|label: Seq<char>| #[trigger]
                label_offsets@.map.contains_key(label) <==> label_offset(
                    self@.statements,
                    label,
                ) is Some,
        ensures
            res is Some <==> self@.end_states().contains_key(name@),
            res matches Some(state) ==> state@ == self@.end_states()[name@],
    {
        if label_offsets.contains_key(name) {
            None
        } else if self.reachable && name.same(&"Fallthrough".to_owned()) {
            Some(&self.main_state)
        } else {
            self.label_state.get(name)
        }
    }

    /// Whether every label to which the code is left is one of `names`.
    fn is_left_within(
        &self,
        label_offsets: &OrderedMap<String, i128>,
        names: &OrderedMap<String, ()>,
    ) -> (res: bool)
        requires
            forall|label: Seq<char>| #[trigger]
                label_offsets@.map.contains_key(label) <==> label_offset(
                    self@.statements,
                    label,
                ) is Some,
        ensures
            res == (forall|name: Seq<char>| #[trigger]
                self@.end_states().contains_key(name) ==> names@.map.contains_key(name)),
    {
        let fallthrough = "Fallthrough".to_owned();
        if self.reachable && !label_offsets.contains_key(&fallthrough) && !names.contains_key(
            &fallthrough,
        ) {
            assert(self@.end_states().contains_key(fallthrough@));
            return false;
        }
        let labels = &self.label_state;
        let len = labels.len();
        proof {
            use_type_invariant(labels);
        }
        for i in 0..len
            invariant
                labels == self.label_state,
                len == labels@.keys.len(),
                forall|label: Seq<char>| #[trigger]
                    label_offsets@.map.contains_key(label) <==> label_offset(
                        self@.statements,
                        label,
                    ) is Some,
                forall|j: int|
                    #![trigger labels@.keys[j]]
                    0 <= j < i && !label_offsets@.map.contains_key(labels@.keys[j])
                        ==> names@.map.contains_key(labels@.keys[j]),
        {
            let (label, _) = labels.entry(i);
            if !label_offsets.contains_key(label) && !names.contains_key(label) {
                assert(self@.end_states().contains_key(label@));
                return false;
            }
        }
        true
    }

    /// Whether every jump to a label that does not stand in the code goes to one of `names`.
    fn jumps_within(
        &self,
        label_offsets: &OrderedMap<String, i128>,
        names: &OrderedMap<String, ()>,
    ) -> (res: bool)
        requires
            forall|label: Seq<char>| #[trigger]
                label_offsets@.map.contains_key(label) <==> label_offset(
                    self@.statements,
                    label,
                ) is Some,
        ensures
            res == (forall|i: int|
                #![trigger self@.statements[i]]
                0 <= i < self@.statements.len() && self@.statements[i] is Jump && label_offset(
                    self@.statements,
                    self@.statements[i]->Jump_0,
                ) is None ==> names@.map.contains_key(self@.statements[i]->Jump_0)),
    {
        for i in 0..self.statements.len()
            invariant
                forall|label: Seq<char>| #[trigger]
                    label_offsets@.map.contains_key(label) <==> label_offset(
                        self@.statements,
                        label,
                    ) is Some,
                forall|j: int|
                    #![trigger self@.statements[j]]
                    0 <= j < i && self@.statements[j] is Jump && label_offset(
                        self@.statements,
                        self@.statements[j]->Jump_0,
                    ) is None ==> names@.map.contains_key(self@.statements[j]->Jump_0),
        {
            assert(self@.statements[i as int] == self.statements@[i as int]@);
            if let Statement::Jump(label, _) = &self.statements[i] {
                if !label_offsets.contains_key(label) && !names.contains_key(label) {
                    return false;
                }
            }
        }
        true
    }

    /// Whether the code is complete, and is left to `branch_names`, each once, and nowhere else.
    pub fn can_build(&self, branch_names: &[&str]) -> (res: bool)
        ensures
            res == self@.can_build(names_view(branch_names@)),
    {
        if self.current_hints.len() != 0 {
            return false;
        }
        let label_offsets = compute_label_offsets(&self.statements);
        let ghost names = names_view(branch_names@);
        let mut wanted: OrderedMap<String, ()> = OrderedMap::new();
        for i in 0..branch_names.len()
            invariant
                names == names_view(branch_names@),
                forall|label: Seq<char>| #[trigger]
                    label_offsets@.map.contains_key(label) <==> label_offset(
                        self@.statements,
                        label,
                    ) is Some,
                forall|name: Seq<char>| #[trigger]
                    wanted@.map.contains_key(name) <==> names.take(i as int).contains(name),
                names.take(i as int).no_duplicates(),
                forall|j: int|
                    #![trigger names[j]]
                    0 <= j < i ==> self@.end_states().contains_key(names[j])
                        && self@.end_states()[names[j]].is_final(),
        {
            let name = branch_names[i].to_owned();
            let ghost before = names.take(i as int);
            proof {
                assert(names[i as int] == name@);
                assert(names.take(i + 1) =~= before.push(name@));
                assert forall|n: Seq<char>| names.take(i + 1).contains(n) <==> before.contains(n)
                    || n == name@ by {
                    assert(before.push(name@)[i as int] == name@);
                }
            }
            if wanted.contains_key(&name) {
                return false;
            }
            match self.find_end_state(&label_offsets, &name) {
                Some(state) => if !state.validate_finality() {
                    return false;
                },
                None => {
                    return false;
                },
            }
            wanted.insert(name, ());
        }
        assert(names.take(names.len() as int) =~= names);
        self.is_left_within(&label_offsets, &wanted) && self.jumps_within(&label_offsets, &wanted)
    }
}

} // verus!
