//! The statements of CASM source: each adds to the code and records what it added.

use vstd::prelude::*;
use vstd::string::StringExecFns;

use super::{vec_into_array, CasmBuilder};
use crate::aux_info::{
    AuxiliaryInfoView, ExprDesc, NameView, StatementDesc, ValueView, VarBaseDesc,
};
use crate::bigint::BigInt;
use crate::cell_expression::{CellExpression, CellOperator};
use crate::hints::{operands_view, Hint};
use crate::model::BuilderView;
use crate::operand::{CellRef, Register, ResOperand};
use crate::state::{StateView, Var};

verus! {

/// A variable and its name in the source.
#[derive(Copy, Clone, Debug)]
pub struct Named<'a> {
    pub name: &'a str,
    pub var: Var,
}

/// What the auxiliary information becomes, if there is any.
pub open spec fn record(
    aux: Option<AuxiliaryInfoView>,
    change: spec_fn(AuxiliaryInfoView) -> AuxiliaryInfoView,
) -> Option<AuxiliaryInfoView> {
    match aux {
        Some(info) => Some(change(info)),
        None => None,
    }
}

/// The description of a named variable.
pub open spec fn described(state: StateView, named: Named<'_>) -> VarBaseDesc<NameView, ValueView> {
    VarBaseDesc { name: named.name@, var_expr: state.value(named.var, false) }
}

/// The sign of an operation.
pub open spec fn operator_sign(op: CellOperator) -> Seq<char> {
    match op {
        CellOperator::Add => "+"@,
        CellOperator::Sub => "-"@,
        CellOperator::Mul => "*"@,
        CellOperator::Div => "/"@,
    }
}

/// The text of `a op b`.
pub open spec fn operation_text(a: Seq<char>, op: CellOperator, b: Seq<char>) -> Seq<char> {
    a + " "@ + operator_sign(op) + " "@ + b
}

/// The text of `[buffer]`.
pub open spec fn deref_text(buffer: Seq<char>) -> Seq<char> {
    "mem "@ + buffer
}

/// The text of `[buffer + offset]`.
pub open spec fn offset_deref_text(buffer: Seq<char>, offset: Seq<char>) -> Seq<char> {
    "mem ("@ + buffer + " + ("@ + offset + "))"@
}

/// The description of `a op b`.
pub open spec fn operation_desc(
    state: StateView,
    a: Named<'_>,
    op: CellOperator,
    b: Named<'_>,
) -> ExprDesc<NameView, ValueView> {
    ExprDesc {
        expr: operation_text(a.name@, op, b.name@),
        var_a: described(state, a),
        op: operator_sign(op),
        var_b: Some(described(state, b)),
    }
}

/// The description of an expression over one variable.
pub open spec fn unary_desc(
    state: StateView,
    text: Seq<char>,
    a: Named<'_>,
    op: Seq<char>,
) -> ExprDesc<NameView, ValueView> {
    ExprDesc { expr: text, var_a: described(state, a), op, var_b: None }
}

fn operator_str(op: CellOperator) -> (res: &'static str)
    ensures
        res@ == operator_sign(op),
{
    match op {
        CellOperator::Add => "+",
        CellOperator::Sub => "-",
        CellOperator::Mul => "*",
        CellOperator::Div => "/",
    }
}

fn operation_string(a: &str, op: CellOperator, b: &str) -> (res: String)
    ensures
        res@ == operation_text(a@, op, b@),
{
    a.to_owned().concat(" ").concat(operator_str(op)).concat(" ").concat(b)
}

fn deref_string(buffer: &str) -> (res: String)
    ensures
        res@ == deref_text(buffer@),
{
    "mem ".to_owned().concat(buffer)
}

fn offset_deref_string(buffer: &str, offset: &str) -> (res: String)
    ensures
        res@ == offset_deref_text(buffer@, offset@),
{
    "mem (".to_owned().concat(buffer).concat(" + (").concat(offset).concat("))")
}

impl BuilderView {
    /// Whether `dst = a op b` can be asserted.
    pub open spec fn can_assert_op(self, dst: Var, a: Var, op: CellOperator, b: Var) -> bool {
        &&& self.can_bin_op(a, b)
        &&& self.bin_op(op, a, b).can_assert_vars_eq(dst, self.next_var())
    }

    /// Whether `dst = [buffer + offset]` can be asserted.
    pub open spec fn can_assert_at(self, dst: Var, buffer: Var, offset: int) -> bool {
        &&& self.can_double_deref(buffer, offset)
        &&& self.double_deref(buffer, offset).can_assert_vars_eq(dst, self.next_var())
    }

    /// Whether `count` values that a function returned can have variables: they can be addressed from
    /// AP.
    pub open spec fn can_return(self, count: int) -> bool {
        &&& count <= i16::MAX
        &&& self.var_count + count <= usize::MAX
    }

    /// The builder after `n` of the `count` values that a function returned have variables: the
    /// values are in the last cells before AP.
    pub open spec fn with_returned(self, n: int, count: int) -> Self
        decreases n,
    {
        if n <= 0 {
            self
        } else {
            self.with_returned(n - 1, count).add_var(
                CellExpression::Deref(
                    CellRef { register: Register::AP, offset: (n - 1 - count) as i16 },
                ),
            )
        }
    }
}

impl CasmBuilder {
    /// Describes a named variable.
    fn describe(&self, named: Named<'_>) -> (res: VarBaseDesc)
        requires
            self@.main_state.has_value(named.var, false),
        ensures
            res@ == described(self@.main_state, named),
    {
        VarBaseDesc { name: named.name.to_owned(), var_expr: self.get_value(named.var, false) }
    }

    /// `tempvar name`.
    pub fn tempvar(&mut self, name: &str) -> (res: Var)
        requires
            old(self)@.can_alloc_var(),
        ensures
            res == old(self)@.next_var(),
            final(self)@ == old(self)@.alloc_var(false),
            final(self).aux_view() == record(
                old(self).aux_view(),
                |info: AuxiliaryInfoView|
                    info.add_tempvar(
                        name@,
                        res,
                        final(self)@.main_state.value(res, false),
                        final(self)@.main_state.ap_change as usize,
                    ),
            ),
    {
        let var = self.alloc_var(false);
        let var_expr = self.get_value(var, false);
        let ap_change = self.get_ap_change();
        if let Some(aux_info) = &mut self.aux_info {
            aux_info.add_tempvar(name, var, var_expr, ap_change);
        }
        var
    }

    /// `localvar name`.
    pub fn localvar(&mut self, name: &str) -> (res: Var)
        requires
            old(self)@.can_alloc_var(),
        ensures
            res == old(self)@.next_var(),
            final(self)@ == old(self)@.alloc_var(true),
            final(self).aux_view() == record(
                old(self).aux_view(),
                |info: AuxiliaryInfoView|
                    info.add_localvar(
                        name@,
                        res,
                        final(self)@.main_state.value(res, false),
                        final(self)@.main_state.ap_change as usize,
                    ),
            ),
    {
        let var = self.alloc_var(true);
        let var_expr = self.get_value(var, false);
        let ap_change = self.get_ap_change();
        if let Some(aux_info) = &mut self.aux_info {
            aux_info.add_localvar(name, var, var_expr, ap_change);
        }
        var
    }

    /// `ap += size`.
    pub fn ap_plus(&mut self, size: usize)
        requires
            old(self)@.can_add_ap(size as int),
        ensures
            final(self)@ == old(self)@.add_ap(size as int),
            final(self).aux_view() == record(
                old(self).aux_view(),
                |info: AuxiliaryInfoView| info.with_statement(StatementDesc::ApPlus(size)),
            ),
    {
        self.add_ap(size);
        if let Some(aux_info) = &mut self.aux_info {
            aux_info.add_ap_plus(size);
        }
    }

    /// `const name = value`, where the source of the value is `text`.
    pub fn constant(&mut self, name: &str, value: BigInt, text: &str) -> (res: Var)
        requires
            old(self)@.can_add_var(),
        ensures
            res == old(self)@.next_var(),
            final(self)@ == old(self)@.add_var(CellExpression::Immediate(value@)),
            final(self).aux_view() == record(
                old(self).aux_view(),
                |info: AuxiliaryInfoView|
                    info.add_const(name@, res, text@, CellExpression::Immediate(value@)),
            ),
    {
        let var = self.add_var(CellExpression::Immediate(value));
        let value = self.get_value(var, false);
        if let Some(aux_info) = &mut self.aux_info {
            aux_info.add_const(name, var, text, value);
        }
        var
    }

    /// `assert dst = res`.
    pub fn assert_var(&mut self, dst: Named<'_>, res: Named<'_>)
        requires
            old(self)@.can_assert_vars_eq(dst.var, res.var),
        ensures
            final(self)@ == old(self)@.assert_vars_eq(dst.var, res.var),
            final(self).aux_view() == record(
                old(self).aux_view(),
                |info: AuxiliaryInfoView|
                    info.add_assert(
                        described(final(self)@.main_state, dst),
                        unary_desc(final(self)@.main_state, res.name@, res, ""@),
                        final(self)@.main_state.ap_change as usize,
                    ),
            ),
    {
        self.assert_vars_eq(dst.var, res.var);
        let dst_desc = self.describe(dst);
        let res_desc = self.describe(res);
        let ap_change = self.get_ap_change();
        if let Some(aux_info) = &mut self.aux_info {
            aux_info.add_assert(dst_desc, res.name, res_desc, "", None, ap_change);
        }
    }

    /// `assert dst = a op b`.
    pub fn assert_op(&mut self, dst: Named<'_>, a: Named<'_>, op: CellOperator, b: Named<'_>)
        requires
            old(self)@.can_assert_op(dst.var, a.var, op, b.var),
        ensures
            final(self)@ == old(self)@.bin_op(op, a.var, b.var).assert_vars_eq(
                dst.var,
                old(self)@.next_var(),
            ),
            final(self).aux_view() == record(
                old(self).aux_view(),
                |info: AuxiliaryInfoView|
                    info.add_assert(
                        described(old(self)@.bin_op(op, a.var, b.var).main_state, dst),
                        operation_desc(
                            old(self)@.bin_op(op, a.var, b.var).main_state,
                            a,
                            op,
                            b,
                        ),
                        old(self)@.main_state.ap_change as usize,
                    ),
            ),
    {
        let value = self.bin_op(op, a.var, b.var);
        let dst_desc = self.describe(dst);
        let a_desc = self.describe(a);
        let b_desc = self.describe(b);
        let ap_change = self.get_ap_change();
        if let Some(aux_info) = &mut self.aux_info {
            let text = operation_string(a.name, op, b.name);
            aux_info.add_assert(
                dst_desc,
                text.as_str(),
                a_desc,
                operator_str(op),
                Some(b_desc),
                ap_change,
            );
        }
        self.assert_vars_eq(dst.var, value);
    }

    /// `assert dst = buffer[offset]`, where the source of the offset is `text`.
    pub fn assert_at(&mut self, dst: Named<'_>, buffer: Named<'_>, offset: i16, text: &str)
        requires
            old(self)@.can_assert_at(dst.var, buffer.var, offset as int),
        ensures
            final(self)@ == old(self)@.double_deref(buffer.var, offset as int).assert_vars_eq(
                dst.var,
                old(self)@.next_var(),
            ),
            final(self).aux_view() == record(
                old(self).aux_view(),
                |info: AuxiliaryInfoView|
                    info.add_assert(
                        described(
                            old(self)@.double_deref(buffer.var, offset as int).main_state,
                            dst,
                        ),
                        unary_desc(
                            old(self)@.double_deref(buffer.var, offset as int).main_state,
                            offset_deref_text(buffer.name@, text@),
                            buffer,
                            "*(+)"@,
                        ),
                        old(self)@.main_state.ap_change as usize,
                    ),
            ),
    {
        let value = self.double_deref(buffer.var, offset);
        let dst_desc = self.describe(dst);
        let buffer_desc = self.describe(buffer);
        let ap_change = self.get_ap_change();
        if let Some(aux_info) = &mut self.aux_info {
            let text = offset_deref_string(buffer.name, text);
            aux_info.add_assert(dst_desc, text.as_str(), buffer_desc, "*(+)", None, ap_change);
        }
        self.assert_vars_eq(dst.var, value);
    }

    /// `assert dst = *buffer`.
    pub fn assert_deref(&mut self, dst: Named<'_>, buffer: Named<'_>)
        requires
            old(self)@.main_state.has_value(dst.var, false),
            old(self)@.can_assert_at(dst.var, buffer.var, 0),
        ensures
            final(self)@ == old(self)@.double_deref(buffer.var, 0).assert_vars_eq(
                dst.var,
                old(self)@.next_var(),
            ),
            final(self).aux_view() == record(
                old(self).aux_view(),
                |info: AuxiliaryInfoView|
                    info.add_assert(
                        described(old(self)@.main_state, dst),
                        unary_desc(
                            old(self)@.main_state,
                            deref_text(buffer.name@),
                            buffer,
                            "*()"@,
                        ),
                        old(self)@.main_state.ap_change as usize,
                    ),
            ),
    {
        let dst_desc = self.describe(dst);
        let buffer_desc = self.describe(buffer);
        let ap_change = self.get_ap_change();
        if let Some(aux_info) = &mut self.aux_info {
            let text = deref_string(buffer.name);
            aux_info.add_assert(dst_desc, text.as_str(), buffer_desc, "*()", None, ap_change);
        }
        let value = self.double_deref(buffer.var, 0);
        self.assert_vars_eq(dst.var, value);
    }

    /// `assert value = *(buffer++)`.
    pub fn assert_deref_inc(&mut self, value: Named<'_>, buffer: Named<'_>)
        requires
            old(self)@.main_state.has_value(value.var, false),
            old(self)@.can_buffer_write_and_inc(buffer.var, value.var),
        ensures
            final(self)@ == old(self)@.buffer_write_and_inc(buffer.var, value.var),
            final(self).aux_view() == record(
                old(self).aux_view(),
                |info: AuxiliaryInfoView|
                    info.add_assert(
                        described(old(self)@.main_state, value),
                        unary_desc(
                            old(self)@.main_state,
                            deref_text(buffer.name@),
                            buffer,
                            "*()"@,
                        ),
                        old(self)@.main_state.ap_change as usize,
                    ),
            ),
    {
        let value_desc = self.describe(value);
        let buffer_desc = self.describe(buffer);
        let ap_change = self.get_ap_change();
        if let Some(aux_info) = &mut self.aux_info {
            let text = deref_string(buffer.name);
            aux_info.add_assert(value_desc, text.as_str(), buffer_desc, "*()", None, ap_change);
        }
        self.buffer_write_and_inc(buffer.var, value.var);
    }

    /// `let name = a op b`.
    pub fn let_op(&mut self, name: &str, a: Named<'_>, op: CellOperator, b: Named<'_>) -> (res: Var)
        requires
            old(self)@.can_bin_op(a.var, b.var),
        ensures
            res == old(self)@.next_var(),
            final(self)@ == old(self)@.bin_op(op, a.var, b.var),
            final(self).aux_view() == record(
                old(self).aux_view(),
                |info: AuxiliaryInfoView|
                    info.add_let(
                        described(final(self)@.main_state, Named { name, var: res }),
                        res,
                        operation_desc(final(self)@.main_state, a, op, b),
                        final(self)@.main_state.ap_change as usize,
                    ),
            ),
    {
        let var = self.bin_op(op, a.var, b.var);
        let dst_desc = self.describe(Named { name, var });
        let a_desc = self.describe(a);
        let b_desc = self.describe(b);
        let ap_change = self.get_ap_change();
        if let Some(aux_info) = &mut self.aux_info {
            let text = operation_string(a.name, op, b.name);
            aux_info.add_let(
                dst_desc,
                var,
                text.as_str(),
                a_desc,
                operator_str(op),
                Some(b_desc),
                ap_change,
            );
        }
        var
    }

    /// `let name = *(buffer++)`.
    pub fn let_deref_inc(&mut self, name: &str, buffer: Named<'_>) -> (res: Var)
        requires
            old(self)@.can_get_ref_and_inc(buffer.var),
        ensures
            res == old(self)@.next_var(),
            final(self)@ == old(self)@.buffer_location(buffer.var),
            final(self).aux_view() == record(
                old(self).aux_view(),
                |info: AuxiliaryInfoView|
                    info.add_let(
                        described(final(self)@.main_state, Named { name, var: res }),
                        res,
                        unary_desc(
                            final(self)@.main_state,
                            deref_text(buffer.name@),
                            buffer,
                            "*()"@,
                        ),
                        final(self)@.main_state.ap_change as usize,
                    ),
            ),
    {
        let var = self.get_ref_and_inc(buffer.var);
        let dst_desc = self.describe(Named { name, var });
        let buffer_desc = self.describe(buffer);
        let ap_change = self.get_ap_change();
        if let Some(aux_info) = &mut self.aux_info {
            let text = deref_string(buffer.name);
            aux_info.add_let(dst_desc, var, text.as_str(), buffer_desc, "*()", None, ap_change);
        }
        var
    }

    /// `let name = buffer[offset]`, where the source of the offset is `text`.
    pub fn let_at(&mut self, name: &str, buffer: Named<'_>, offset: i16, text: &str) -> (res: Var)
        requires
            old(self)@.can_double_deref(buffer.var, offset as int),
        ensures
            res == old(self)@.next_var(),
            final(self)@ == old(self)@.double_deref(buffer.var, offset as int),
            final(self).aux_view() == record(
                old(self).aux_view(),
                |info: AuxiliaryInfoView|
                    info.add_let(
                        described(final(self)@.main_state, Named { name, var: res }),
                        res,
                        unary_desc(
                            final(self)@.main_state,
                            offset_deref_text(buffer.name@, text@),
                            buffer,
                            "*(+)"@,
                        ),
                        final(self)@.main_state.ap_change as usize,
                    ),
            ),
    {
        let var = self.double_deref(buffer.var, offset);
        let dst_desc = self.describe(Named { name, var });
        let buffer_desc = self.describe(buffer);
        let ap_change = self.get_ap_change();
        if let Some(aux_info) = &mut self.aux_info {
            let text = offset_deref_string(buffer.name, text);
            aux_info.add_let(dst_desc, var, text.as_str(), buffer_desc, "*(+)", None, ap_change);
        }
        var
    }

    /// `let name = *buffer`.
    pub fn let_deref(&mut self, name: &str, buffer: Named<'_>) -> (res: Var)
        requires
            old(self)@.can_double_deref(buffer.var, 0),
        ensures
            res == old(self)@.next_var(),
            final(self)@ == old(self)@.double_deref(buffer.var, 0),
            final(self).aux_view() == record(
                old(self).aux_view(),
                |info: AuxiliaryInfoView|
                    info.add_let(
                        described(final(self)@.main_state, Named { name, var: res }),
                        res,
                        unary_desc(
                            old(self)@.main_state,
                            deref_text(buffer.name@),
                            buffer,
                            "*()"@,
                        ),
                        final(self)@.main_state.ap_change as usize,
                    ),
            ),
    {
        let buffer_desc = self.describe(buffer);
        let var = self.double_deref(buffer.var, 0);
        let dst_desc = self.describe(Named { name, var });
        let ap_change = self.get_ap_change();
        if let Some(aux_info) = &mut self.aux_info {
            let text = deref_string(buffer.name);
            aux_info.add_let(dst_desc, var, text.as_str(), buffer_desc, "*()", None, ap_change);
        }
        var
    }

    /// `let name = src`.
    pub fn let_var(&mut self, name: &str, src: Named<'_>) -> (res: Var)
        requires
            old(self)@.can_duplicate_var(src.var),
        ensures
            res == old(self)@.next_var(),
            final(self)@ == old(self)@.duplicate_var(src.var),
            final(self).aux_view() == record(
                old(self).aux_view(),
                |info: AuxiliaryInfoView|
                    info.add_let(
                        described(final(self)@.main_state, Named { name, var: res }),
                        res,
                        unary_desc(final(self)@.main_state, src.name@, src, ""@),
                        final(self)@.main_state.ap_change as usize,
                    ),
            ),
    {
        let var = self.duplicate_var(src.var);
        let dst_desc = self.describe(Named { name, var });
        let src_desc = self.describe(src);
        let ap_change = self.get_ap_change();
        if let Some(aux_info) = &mut self.aux_info {
            aux_info.add_let(dst_desc, var, src.name, src_desc, "", None, ap_change);
        }
        var
    }

    /// `jump target`.
    pub fn jump_to(&mut self, target: &str)
        requires
            old(self)@.can_jump(target@),
        ensures
            final(self)@ == old(self)@.jump(target@),
            final(self).aux_view() == record(
                old(self).aux_view(),
                |info: AuxiliaryInfoView|
                    info.add_jump(
                        target@,
                        None,
                        final(self)@.main_state.ap_change as usize,
                    ),
            ),
    {
        self.jump(target.to_owned());
        let ap_change = self.get_ap_change();
        if let Some(aux_info) = &mut self.aux_info {
            aux_info.add_jump(target, ap_change);
        }
    }

    /// `jump target if condition != 0`.
    pub fn jump_to_nz(&mut self, target: &str, condition: Named<'_>)
        requires
            old(self)@.can_jump_nz(condition.var, target@),
        ensures
            final(self)@ == old(self)@.jump_nz(condition.var, target@),
            final(self).aux_view() == record(
                old(self).aux_view(),
                |info: AuxiliaryInfoView|
                    info.add_jump(
                        target@,
                        Some(described(final(self)@.main_state, condition)),
                        final(self)@.main_state.ap_change as usize,
                    ),
            ),
    {
        self.jump_nz(condition.var, target.to_owned());
        let cond_desc = self.describe(condition);
        let ap_change = self.get_ap_change();
        if let Some(aux_info) = &mut self.aux_info {
            aux_info.add_jump_nz(target, cond_desc, ap_change);
        }
    }

    /// `let (..) = call target`, with a variable for each of the values that the function returns.
    pub fn call_returning<const COUNT: usize>(&mut self, target: &str) -> (res: [Var; COUNT])
        requires
            old(self)@.can_call(target@),
            old(self)@.can_return(COUNT as int),
        ensures
            final(self)@ == old(self)@.call(target@).with_returned(COUNT as int, COUNT as int),
            forall|i: int|
                0 <= i < COUNT ==> #[trigger] res@[i] == Var::spec_new(
                    (old(self)@.var_count + i) as usize,
                ),
            final(self).aux() == old(self).aux(),
    {
        self.call(target.to_owned());
        let ghost called = self@;
        let mut vars: Vec<Var> = Vec::new();
        for i in 0..COUNT
            invariant
                COUNT <= i16::MAX,
                called.var_count == old(self)@.var_count,
                old(self)@.var_count + COUNT <= usize::MAX,
                self@ == called.with_returned(i as int, COUNT as int),
                self@.var_count == called.var_count + i,
                self.aux() == old(self).aux(),
                vars@.len() == i,
                forall|j: int|
                    0 <= j < i ==> #[trigger] vars@[j] == Var::spec_new(
                        (old(self)@.var_count + j) as usize,
                    ),
        {
            let var = self.add_var(
                CellExpression::Deref(
                    CellRef { offset: i as i16 - COUNT as i16, register: Register::AP },
                ),
            );
            vars.push(var);
        }
        match vec_into_array(vars) {
            Ok(vars) => vars,
            Err(_) => vstd::pervasive::unreached(),
        }
    }

    /// `name:`.
    pub fn label_here(&mut self, name: &str)
        requires
            old(self)@.can_label(name@),
        ensures
            final(self)@ == old(self)@.label(name@),
            final(self).aux_view() == record(
                old(self).aux_view(),
                |info: AuxiliaryInfoView|
                    info.add_label(name@, final(self)@.main_state.ap_change as usize),
            ),
    {
        self.label(name.to_owned());
        let ap_change = self.get_ap_change();
        if let Some(aux_info) = &mut self.aux_info {
            aux_info.add_label(name, ap_change);
        }
    }

    /// `hint name { inputs } into { outputs }`: the hint reads the values of `inputs` and writes the
    /// cells of `outputs`.
    pub fn hint<const INPUTS_COUNT: usize, const OUTPUTS_COUNT: usize>(
        &mut self,
        name: &str,
        inputs: [Var; INPUTS_COUNT],
        outputs: [Var; OUTPUTS_COUNT],
    )
        requires
            old(self)@.can_add_hint(inputs@, outputs@),
        ensures
            ({
                let hint = final(self)@.current_hints.last();
                &&& final(self)@ == old(self)@.add_hint(hint)
                &&& hint.name@ == name@
                &&& operands_view(hint.inputs@) == old(self)@.hint_inputs(inputs@)
                &&& hint.outputs@ == old(self)@.hint_outputs(outputs@)
            }),
            final(self).aux() == old(self).aux(),
    {
        let make = |ins: [ResOperand; INPUTS_COUNT], outs: [CellRef; OUTPUTS_COUNT]| -> (res: Hint)
            ensures
                res.name@ == name@,
                operands_view(res.inputs@) == operands_view(ins@),
                res.outputs@ == outs@,
        { Hint::new(name, ins, outs) };
        self.add_hint(make, inputs, outputs);
    }

    /// `fail`.
    pub fn fail_here(&mut self)
        requires
            old(self)@.can_emit(),
        ensures
            final(self)@ == old(self)@.fail(),
            final(self).aux_view() == record(
                old(self).aux_view(),
                |info: AuxiliaryInfoView| info.with_statement(StatementDesc::Fail),
            ),
    {
        self.fail();
        if let Some(aux_info) = &mut self.aux_info {
            aux_info.add_fail();
        }
    }
}

} // verus!
