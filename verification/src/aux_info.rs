//! Auxiliary information on the code that was built, gathered for verification.

use std::collections::HashMap;

use vstd::prelude::*;

use crate::bigint::BigInt;
use crate::cell_expression::CellExpression;
use crate::state::Var;

verus! {

/// A name, as specifications see it.
pub type NameView = Seq<char>;

/// A value, as specifications see it.
pub type ValueView = CellExpression<int>;

/// A named value. As in the descriptions below, the types of the names and of the values are
/// parameters so that the view of a description is the same type over sequences and integers.
#[derive(Debug, PartialEq, Eq, Clone)]
pub struct VarBaseDesc<S = String, E = CellExpression> {
    pub name: S,
    pub var_expr: E,
}

/// An expression over one or two named values.
#[derive(Debug, PartialEq, Eq, Clone)]
pub struct ExprDesc<S = String, E = CellExpression> {
    pub expr: S,
    pub var_a: VarBaseDesc<S, E>,
    pub op: S,
    pub var_b: Option<VarBaseDesc<S, E>>,
}

/// A variable, with the expression that it was first asserted to equal.
#[derive(Debug, PartialEq, Eq, Clone)]
pub struct VarDesc<S = String, E = CellExpression> {
    pub name: S,
    pub var_expr: E,
    pub expr: Option<ExprDesc<S, E>>,
    pub ap_change: usize,
}

/// An assertion, or the definition of a name.
#[derive(Debug, PartialEq, Eq, Clone)]
pub struct AssertDesc<S = String, E = CellExpression> {
    pub lhs: VarBaseDesc<S, E>,
    pub expr: ExprDesc<S, E>,
    pub ap_change: usize,
}

/// A named constant.
#[derive(Debug, PartialEq, Eq, Clone)]
pub struct ConstDesc<S = String, E = CellExpression> {
    pub name: S,
    pub expr: S,
    pub value: E,
}

/// A jump, with its condition if it has one.
#[derive(Debug, PartialEq, Eq, Clone)]
pub struct JumpDesc<S = String, E = CellExpression> {
    pub target: S,
    pub cond_var: Option<VarBaseDesc<S, E>>,
    pub ap_change: usize,
}

/// A label.
#[derive(Debug, PartialEq, Eq, Clone)]
pub struct LabelDesc<S = String> {
    pub label: S,
    pub ap_change: usize,
}

/// The names of the variables that make up one returned value.
#[derive(Debug, PartialEq, Eq, Clone)]
pub struct RetExprDesc {
    pub names: Vec<String>,
}

/// A branch by which the code is left, and what it returns.
#[derive(Debug, PartialEq, Eq, Clone)]
pub struct RetBranchDesc {
    pub name: String,
    pub exprs: Vec<RetExprDesc>,
}

/// A statement of the code.
#[derive(Debug, PartialEq, Eq, Clone)]
pub enum StatementDesc<S = String, E = CellExpression> {
    TempVar(VarDesc<S, E>),
    LocalVar(VarDesc<S, E>),
    Let(AssertDesc<S, E>),
    Assert(AssertDesc<S, E>),
    ApPlus(usize),
    Jump(JumpDesc<S, E>),
    Label(LabelDesc<S>),
    Fail,
}

/// The algorithm that a library function goes by.
#[derive(Debug, PartialEq, Eq, Clone)]
pub enum LibfuncAlgTypeDesc<I = BigInt> {
    /// The lhs is small enough so that its square root plus 1 can be multiplied by `2**128`
    /// without wraparound.
    /// `lhs_upper_sqrt` is the square root of the upper bound of the lhs, rounded up.
    DivRemKnownSmallLhs { lhs_upper_sqrt: I },
    /// The rhs is small enough to be multiplied by `2**128` without wraparound.
    DivRemKnownSmallRhs,
    /// The quotient is small enough to be multiplied by `2**128` without wraparound.
    DivRemKnownSmallQuotient { q_upper_bound: I },
}

/// Auxiliary information on the code that was built.
#[derive(Debug, PartialEq, Eq, Clone)]
pub struct CasmBuilderAuxiliaryInfo {
    /// The name per variable, by the index of the variable.
    pub var_names: HashMap<usize, String>,
    pub consts: Vec<ConstDesc>,
    pub args: Vec<(Var, CellExpression)>,
    pub statements: Vec<StatementDesc>,
    // The fields below are not set by the casm builder, but outside of it.
    pub return_branches: Vec<RetBranchDesc>,
    pub core_libfunc_instr_num: usize,
    pub alg_type: Option<LibfuncAlgTypeDesc>,
}

impl View for VarBaseDesc {
    type V = VarBaseDesc<NameView, ValueView>;

    open spec fn view(&self) -> VarBaseDesc<NameView, ValueView> {
        VarBaseDesc { name: self.name@, var_expr: self.var_expr@ }
    }
}

/// The view of a description that may be missing.
pub open spec fn var_base_view(desc: Option<VarBaseDesc>) -> Option<
    VarBaseDesc<NameView, ValueView>,
> {
    match desc {
        Some(desc) => Some(desc@),
        None => None,
    }
}

impl View for ExprDesc {
    type V = ExprDesc<NameView, ValueView>;

    open spec fn view(&self) -> ExprDesc<NameView, ValueView> {
        ExprDesc {
            expr: self.expr@,
            var_a: self.var_a@,
            op: self.op@,
            var_b: var_base_view(self.var_b),
        }
    }
}

impl View for VarDesc {
    type V = VarDesc<NameView, ValueView>;

    open spec fn view(&self) -> VarDesc<NameView, ValueView> {
        VarDesc {
            name: self.name@,
            var_expr: self.var_expr@,
            expr: match self.expr {
                Some(expr) => Some(expr@),
                None => None,
            },
            ap_change: self.ap_change,
        }
    }
}

impl View for AssertDesc {
    type V = AssertDesc<NameView, ValueView>;

    open spec fn view(&self) -> AssertDesc<NameView, ValueView> {
        AssertDesc { lhs: self.lhs@, expr: self.expr@, ap_change: self.ap_change }
    }
}

impl View for ConstDesc {
    type V = ConstDesc<NameView, ValueView>;

    open spec fn view(&self) -> ConstDesc<NameView, ValueView> {
        ConstDesc { name: self.name@, expr: self.expr@, value: self.value@ }
    }
}

impl View for JumpDesc {
    type V = JumpDesc<NameView, ValueView>;

    open spec fn view(&self) -> JumpDesc<NameView, ValueView> {
        JumpDesc {
            target: self.target@,
            cond_var: var_base_view(self.cond_var),
            ap_change: self.ap_change,
        }
    }
}

impl View for LabelDesc {
    type V = LabelDesc<NameView>;

    open spec fn view(&self) -> LabelDesc<NameView> {
        LabelDesc { label: self.label@, ap_change: self.ap_change }
    }
}

impl View for RetExprDesc {
    type V = Seq<NameView>;

    open spec fn view(&self) -> Seq<NameView> {
        strings_view(self.names@)
    }
}

/// The view of a return branch.
#[verifier::ext_equal]
pub struct RetBranchView {
    pub name: NameView,
    pub exprs: Seq<Seq<NameView>>,
}

impl View for RetBranchDesc {
    type V = RetBranchView;

    open spec fn view(&self) -> RetBranchView {
        RetBranchView {
            name: self.name@,
            exprs: exprs_view(self.exprs@),
        }
    }
}

impl View for StatementDesc {
    type V = StatementDesc<NameView, ValueView>;

    open spec fn view(&self) -> StatementDesc<NameView, ValueView> {
        match self {
            StatementDesc::TempVar(desc) => StatementDesc::TempVar(desc@),
            StatementDesc::LocalVar(desc) => StatementDesc::LocalVar(desc@),
            StatementDesc::Let(desc) => StatementDesc::Let(desc@),
            StatementDesc::Assert(desc) => StatementDesc::Assert(desc@),
            StatementDesc::ApPlus(step_size) => StatementDesc::ApPlus(*step_size),
            StatementDesc::Jump(desc) => StatementDesc::Jump(desc@),
            StatementDesc::Label(desc) => StatementDesc::Label(desc@),
            StatementDesc::Fail => StatementDesc::Fail,
        }
    }
}

impl View for LibfuncAlgTypeDesc {
    type V = LibfuncAlgTypeDesc<int>;

    open spec fn view(&self) -> LibfuncAlgTypeDesc<int> {
        match self {
            LibfuncAlgTypeDesc::DivRemKnownSmallLhs { lhs_upper_sqrt } => {
                LibfuncAlgTypeDesc::DivRemKnownSmallLhs { lhs_upper_sqrt: lhs_upper_sqrt@ }
            },
            LibfuncAlgTypeDesc::DivRemKnownSmallRhs => LibfuncAlgTypeDesc::DivRemKnownSmallRhs,
            LibfuncAlgTypeDesc::DivRemKnownSmallQuotient { q_upper_bound } => {
                LibfuncAlgTypeDesc::DivRemKnownSmallQuotient { q_upper_bound: q_upper_bound@ }
            },
        }
    }
}

/// The view of the auxiliary information.
#[verifier::ext_equal]
pub struct AuxiliaryInfoView {
    pub var_names: Map<Var, NameView>,
    pub consts: Seq<ConstDesc<NameView, ValueView>>,
    pub args: Seq<(Var, ValueView)>,
    pub statements: Seq<StatementDesc<NameView, ValueView>>,
    pub return_branches: Seq<RetBranchView>,
    pub core_libfunc_instr_num: usize,
    pub alg_type: Option<LibfuncAlgTypeDesc<int>>,
}

impl View for CasmBuilderAuxiliaryInfo {
    type V = AuxiliaryInfoView;

    open spec fn view(&self) -> AuxiliaryInfoView {
        AuxiliaryInfoView {
            var_names: Map::new(
                |var: Var| self.var_names@.contains_key(var.spec_index()),
                |var: Var| self.var_names@[var.spec_index()]@,
            ),
            consts: self.consts@.map_values(|desc: ConstDesc| desc@),
            args: self.args@.map_values(|arg: (Var, CellExpression)| (arg.0, arg.1@)),
            statements: self.statements@.map_values(|desc: StatementDesc| desc@),
            return_branches: self.return_branches@.map_values(|desc: RetBranchDesc| desc@),
            core_libfunc_instr_num: self.core_libfunc_instr_num,
            alg_type: match self.alg_type {
                Some(alg_type) => Some(alg_type@),
                None => None,
            },
        }
    }
}

impl AuxiliaryInfoView {
    /// No information yet.
    pub open spec fn empty() -> Self {
        AuxiliaryInfoView {
            var_names: Map::empty(),
            consts: Seq::empty(),
            args: Seq::empty(),
            statements: Seq::empty(),
            return_branches: Seq::empty(),
            core_libfunc_instr_num: 0,
            alg_type: None,
        }
    }

    /// A name for a variable.
    pub open spec fn with_name(self, var: Var, name: NameView) -> Self {
        AuxiliaryInfoView { var_names: self.var_names.insert(var, name), ..self }
    }

    /// One more statement.
    pub open spec fn with_statement(self, statement: StatementDesc<NameView, ValueView>) -> Self {
        AuxiliaryInfoView { statements: self.statements.push(statement), ..self }
    }

    /// The name of a variable, or "ρ" for one that has none.
    pub open spec fn name_of(self, var: Var) -> NameView {
        if self.var_names.contains_key(var) {
            self.var_names[var]
        } else {
            "ρ"@
        }
    }

    /// Whether the code is more than a single unconditional jump.
    pub open spec fn not_empty(self) -> bool {
        if self.statements.len() == 1 {
            !(self.statements[0] matches StatementDesc::Jump(jump) && jump.cond_var is None)
        } else {
            self.statements.len() > 0
        }
    }

    /// An argument.
    pub open spec fn add_arg(self, name: NameView, var: Var, value: ValueView) -> Self {
        AuxiliaryInfoView { args: self.args.push((var, value)), ..self.with_name(var, name) }
    }

    /// A branch that returns values, each made up of some variables.
    pub open spec fn add_return_branch(self, name: NameView, vars: Seq<Seq<Var>>) -> Self {
        AuxiliaryInfoView {
            return_branches: self.return_branches.push(
                RetBranchView {
                    name,
                    exprs: vars.map_values(
                        |value: Seq<Var>| value.map_values(|var: Var| self.name_of(var)),
                    ),
                },
            ),
            ..self
        }
    }

    /// A temporary variable.
    pub open spec fn add_tempvar(
        self,
        name: NameView,
        var: Var,
        value: ValueView,
        ap_change: usize,
    ) -> Self {
        self.with_name(var, name).with_statement(
            StatementDesc::TempVar(VarDesc { name, var_expr: value, expr: None, ap_change }),
        )
    }

    /// A local variable.
    pub open spec fn add_localvar(
        self,
        name: NameView,
        var: Var,
        value: ValueView,
        ap_change: usize,
    ) -> Self {
        self.with_name(var, name).with_statement(
            StatementDesc::LocalVar(VarDesc { name, var_expr: value, expr: None, ap_change }),
        )
    }

    /// A constant.
    pub open spec fn add_const(
        self,
        name: NameView,
        var: Var,
        expr: NameView,
        value: ValueView,
    ) -> Self {
        AuxiliaryInfoView {
            consts: self.consts.push(ConstDesc { name, expr, value }),
            ..self.with_name(var, name)
        }
    }

    /// The definition of a name.
    pub open spec fn add_let(
        self,
        lhs: VarBaseDesc<NameView, ValueView>,
        lhs_id: Var,
        expr: ExprDesc<NameView, ValueView>,
        ap_change: usize,
    ) -> Self {
        self.with_name(lhs_id, lhs.name).with_statement(
            StatementDesc::Let(AssertDesc { lhs, expr, ap_change }),
        )
    }

    /// An assertion. The first one on a variable, right after the variable, becomes part of the
    /// description of the variable.
    pub open spec fn add_assert(
        self,
        lhs: VarBaseDesc<NameView, ValueView>,
        expr: ExprDesc<NameView, ValueView>,
        ap_change: usize,
    ) -> Self {
        let last = if self.statements.len() > 0 {
            Some(self.statements.last())
        } else {
            None
        };
        let defined = match last {
            Some(StatementDesc::TempVar(desc)) if desc.name == lhs.name && desc.expr is None => {
                Some(StatementDesc::TempVar(VarDesc { expr: Some(expr), ..desc }))
            },
            Some(StatementDesc::LocalVar(desc)) if desc.name == lhs.name && desc.expr is None => {
                Some(StatementDesc::LocalVar(VarDesc { expr: Some(expr), ..desc }))
            },
            _ => None,
        };
        match defined {
            Some(statement) => AuxiliaryInfoView {
                statements: self.statements.drop_last().push(statement),
                ..self
            },
            None => self.with_statement(StatementDesc::Assert(AssertDesc { lhs, expr, ap_change })),
        }
    }

    /// A jump.
    pub open spec fn add_jump(
        self,
        target: NameView,
        cond_var: Option<VarBaseDesc<NameView, ValueView>>,
        ap_change: usize,
    ) -> Self {
        self.with_statement(StatementDesc::Jump(JumpDesc { target, cond_var, ap_change }))
    }

    /// A label.
    pub open spec fn add_label(self, label: NameView, ap_change: usize) -> Self {
        self.with_statement(StatementDesc::Label(LabelDesc { label, ap_change }))
    }
}

impl Default for CasmBuilderAuxiliaryInfo {
    fn default() -> (res: Self)
        ensures
            res@ == AuxiliaryInfoView::empty(),
    {
        CasmBuilderAuxiliaryInfo {
            var_names: HashMap::new(),
            consts: Vec::new(),
            args: Vec::new(),
            statements: Vec::new(),
            return_branches: Vec::new(),
            core_libfunc_instr_num: 0,
            alg_type: None,
        }
    }
}

impl RetBranchView {
    /// All the returned names, one after the other.
    pub open spec fn flat(self) -> Seq<NameView> {
        self.exprs.flatten()
    }
}

/// Flattening one list of lists after another.
proof fn lemma_flatten_concat(a: Seq<Seq<NameView>>, b: Seq<Seq<NameView>>)
    ensures
        (a + b).flatten() == a.flatten() + b.flatten(),
    decreases a.len(),
{
    if a.len() > 0 {
        lemma_flatten_concat(a.drop_first(), b);
        assert((a + b).drop_first() =~= a.drop_first() + b);
    }
}

/// Where the names of the expression number `i` stand among all the names.
proof fn lemma_flatten_at(exprs: Seq<Seq<NameView>>, i: int)
    requires
        0 <= i < exprs.len(),
    ensures
        exprs.take(i + 1).flatten() == exprs.take(i).flatten() + exprs[i],
        exprs.flatten() == exprs.take(i).flatten() + exprs[i] + exprs.skip(i + 1).flatten(),
        exprs.skip(i).flatten() == exprs[i] + exprs.skip(i + 1).flatten(),
{
    assert(exprs.take(i + 1) =~= exprs.take(i).push(exprs[i]));
    exprs.take(i).lemma_flatten_push(exprs[i]);
    assert(exprs =~= exprs.take(i + 1) + exprs.skip(i + 1));
    lemma_flatten_concat(exprs.take(i + 1), exprs.skip(i + 1));
    assert(exprs.skip(i).drop_first() =~= exprs.skip(i + 1));
}

impl RetBranchDesc {
    /// Returns the name at the given position.
    pub fn get_expr_at_pos(&self, pos: usize) -> (res: Option<String>)
        ensures
            res is Some <==> pos < self@.flat().len(),
            res matches Some(name) ==> name@ == self@.flat()[pos as int],
    {
        let mut skipped: usize = 0;
        let len = self.exprs.len();
        let ghost exprs = self@.exprs;
        for i in 0..len
            invariant
                len == self.exprs@.len(),
                exprs == self@.exprs,
                skipped <= pos,
                skipped == exprs.take(i as int).flatten().len(),
        {
            let names = &self.exprs[i].names;
            proof {
                lemma_flatten_at(exprs, i as int);
            }
            if pos - skipped < names.len() {
                return Some(names[pos - skipped].clone());
            }
            skipped += names.len();
        }
        assert(exprs.take(len as int) =~= exprs);
        None
    }

    /// Returns the name at the given position from the end: 0 is the last
    /// name, 1 the one before it, etc. The first `ignore_at_start` names do not count.
    pub fn get_expr_at_pos_from_end(&self, pos: usize, ignore_at_start: usize) -> (res: Option<
        String,
    >)
        ensures
            res is Some <==> pos + ignore_at_start < self@.flat().len(),
            res matches Some(name) ==> name@ == self@.flat()[self@.flat().len() - 1 - pos],
    {
        let len = self.exprs.len();
        let ghost exprs = self@.exprs;
        if ignore_at_start != 0 {
            let arg_num = self.name_count();
            if arg_num < ignore_at_start as u128 || arg_num - ignore_at_start as u128
                <= pos as u128 {
                return None;
            }
        }
        let mut skipped: usize = 0;
        let mut i: usize = len;
        while i > 0
            invariant
                i <= len,
                len == self.exprs@.len(),
                exprs == self@.exprs,
                skipped <= pos,
                skipped == exprs.skip(i as int).flatten().len(),
                ignore_at_start != 0 ==> pos + ignore_at_start < exprs.flatten().len(),
            decreases i,
        {
            i -= 1;
            let names = &self.exprs[i].names;
            let names_len = names.len();
            proof {
                lemma_flatten_at(exprs, i as int);
            }
            if pos - skipped < names_len {
                return Some(names[names_len - 1 - (pos - skipped)].clone());
            }
            skipped += names_len;
        }
        assert(exprs.skip(0) =~= exprs);
        None
    }

    /// The number of names.
    fn name_count(&self) -> (res: u128)
        ensures
            res == self@.flat().len(),
    {
        let mut count: u128 = 0;
        let len = self.exprs.len();
        let ghost exprs = self@.exprs;
        for i in 0..len
            invariant
                len == self.exprs@.len(),
                exprs == self@.exprs,
                count == exprs.take(i as int).flatten().len(),
                count <= i * usize::MAX,
        {
            let names_len = self.exprs[i].names.len();
            proof {
                lemma_flatten_at(exprs, i as int);
                assert((i + 1) * usize::MAX <= u128::MAX) by (nonlinear_arith)
                    requires
                        i + 1 <= usize::MAX,
                ;
            }
            count += names_len as u128;
        }
        assert(exprs.take(len as int) =~= exprs);
        count
    }

    /// All the returned names, one after the other.
    pub fn flat_exprs(&self) -> (res: Vec<String>)
        ensures
            strings_view(res@) == self@.flat(),
    {
        let mut res: Vec<String> = Vec::new();
        let len = self.exprs.len();
        let ghost exprs = self@.exprs;
        for i in 0..len
            invariant
                len == self.exprs@.len(),
                exprs == self@.exprs,
                strings_view(res@) == exprs.take(i as int).flatten(),
        {
            let names = &self.exprs[i].names;
            let names_len = names.len();
            let ghost before = strings_view(res@);
            for j in 0..names_len
                invariant
                    names_len == names@.len(),
                    strings_view(res@) == before + strings_view(names@).take(j as int),
            {
                let name = names[j].clone();
                assert(strings_view(res@.push(name)) =~= strings_view(res@).push(name@));
                assert(strings_view(names@).take(j + 1) =~= strings_view(names@).take(
                    j as int,
                ).push(name@));
                res.push(name);
            }
            proof {
                lemma_flatten_at(exprs, i as int);
            }
        }
        assert(exprs.take(len as int) =~= exprs);
        res
    }
}

impl CasmBuilderAuxiliaryInfo {
    /// Records the name of a variable.
    fn set_name(&mut self, var: Var, name: String)
        ensures
            final(self)@ == old(self)@.with_name(var, name@),
    {
        self.var_names.insert(var.index(), name);
        proof {
            broadcast use Var::lemma_new;
        }
    }

    /// Records a statement.
    fn push_statement(&mut self, statement: StatementDesc)
        ensures
            final(self)@ == old(self)@.with_statement(statement@),
    {
        self.statements.push(statement);
    }

    /// Whether the block is not simply a non-conditional 'jump'.
    pub fn not_empty(&self) -> (res: bool)
        ensures
            res == self@.not_empty(),
    {
        if self.statements.len() == 0 {
            false
        } else if self.statements.len() == 1 {
            match &self.statements[0] {
                StatementDesc::Jump(jmp) => jmp.cond_var.is_some(),
                _ => true,
            }
        } else {
            true
        }
    }

    /// Records an argument.
    pub fn add_arg(&mut self, var_name: &str, var: Var, cell_expr: CellExpression)
        ensures
            final(self)@ == old(self)@.add_arg(var_name@, var, cell_expr@),
    {
        self.set_name(var, var_name.to_owned());
        self.args.push((var, cell_expr));
    }

    /// The name of a variable.
    fn name_or_placeholder(&self, var: Var) -> (res: String)
        ensures
            res@ == self@.name_of(var),
    {
        match self.var_names.get(&var.index()) {
            Some(name) => name.clone(),
            None => "ρ".to_owned(),
        }
    }

    /// Records a return branch, with the names of the variables that make up its values.
    pub fn add_return_branch(&mut self, branch_name: &str, vars: &[&[Var]])
        ensures
            final(self)@ == old(self)@.add_return_branch(
                branch_name@,
                vars@.map_values(|value: &[Var]| value@),
            ),
    {
        let mut exprs: Vec<RetExprDesc> = Vec::new();
        let ghost values = vars@.map_values(|value: &[Var]| value@);
        let vars_len = vars.len();
        for i in 0..vars_len
            invariant
                *self == *old(self),
                vars_len == vars@.len(),
                values == vars@.map_values(|value: &[Var]| value@),
                exprs_view(exprs@).len() == i,
                forall|k: int|
                    0 <= k < i ==> #[trigger] exprs_view(exprs@)[k] == values[k].map_values(
                        |var: Var| self@.name_of(var),
                    ),
        {
            let value = vars[i];
            let mut names: Vec<String> = Vec::new();
            let value_len = value.len();
            for j in 0..value_len
                invariant
                    *self == *old(self),
                    value_len == value@.len(),
                    names@.len() == j,
                    forall|k: int|
                        0 <= k < j ==> (#[trigger] names@[k])@ == self@.name_of(value@[k]),
            {
                names.push(self.name_or_placeholder(value[j]));
            }
            let expr = RetExprDesc { names };
            assert(exprs_view(exprs@.push(expr)) =~= exprs_view(exprs@).push(expr@));
            exprs.push(expr);
        }
        let branch = RetBranchDesc { name: branch_name.to_owned(), exprs };
        proof {
            let expected = old(self)@.add_return_branch(branch_name@, values);
            assert(branch@.exprs =~= expected.return_branches.last().exprs);
        }
        self.return_branches.push(branch);
    }

    /// Records a temporary variable.
    pub fn add_tempvar(
        &mut self,
        var_name: &str,
        var: Var,
        var_expr: CellExpression,
        ap_change: usize,
    )
        ensures
            final(self)@ == old(self)@.add_tempvar(var_name@, var, var_expr@, ap_change),
    {
        self.set_name(var, var_name.to_owned());
        self.push_statement(
            StatementDesc::TempVar(
                VarDesc { name: var_name.to_owned(), var_expr, expr: None, ap_change },
            ),
        );
    }

    /// Records a local variable.
    pub fn add_localvar(
        &mut self,
        var_name: &str,
        var: Var,
        var_expr: CellExpression,
        ap_change: usize,
    )
        ensures
            final(self)@ == old(self)@.add_localvar(var_name@, var, var_expr@, ap_change),
    {
        self.set_name(var, var_name.to_owned());
        self.push_statement(
            StatementDesc::LocalVar(
                VarDesc { name: var_name.to_owned(), var_expr, expr: None, ap_change },
            ),
        );
    }

    /// Records a constant.
    pub fn add_const(&mut self, var_name: &str, var: Var, expr: &str, value: CellExpression)
        ensures
            final(self)@ == old(self)@.add_const(var_name@, var, expr@, value@),
    {
        self.set_name(var, var_name.to_owned());
        self.consts.push(ConstDesc { name: var_name.to_owned(), expr: expr.to_owned(), value });
    }

    /// Records the definition of a name.
    pub fn add_let(
        &mut self,
        lhs: VarBaseDesc,
        lhs_id: Var,
        expr: &str,
        var_a: VarBaseDesc,
        op: &str,
        var_b: Option<VarBaseDesc>,
        ap_change: usize,
    )
        ensures
            final(self)@ == old(self)@.add_let(
                lhs@,
                lhs_id,
                ExprDesc { expr: expr@, var_a: var_a@, op: op@, var_b: var_base_view(var_b) },
                ap_change,
            ),
    {
        self.set_name(lhs_id, lhs.name.clone());
        self.push_statement(
            StatementDesc::Let(
                AssertDesc {
                    lhs,
                    expr: ExprDesc { expr: expr.to_owned(), var_a, op: op.to_owned(), var_b },
                    ap_change,
                },
            ),
        );
    }

    /// Records an increase of AP.
    pub fn add_ap_plus(&mut self, step_size: usize)
        ensures
            final(self)@ == old(self)@.with_statement(StatementDesc::ApPlus(step_size)),
    {
        self.push_statement(StatementDesc::ApPlus(step_size));
    }

    /// Describes a variable.
    pub fn make_var_desc(&self, name: &str, id: Var, expr: CellExpression) -> (res: VarBaseDesc)
        ensures
            res@ == (VarBaseDesc { name: name@, var_expr: expr@ }),
    {
        VarBaseDesc { name: name.to_owned(), var_expr: expr }
    }

    /// Records an assertion.
    pub fn add_assert(
        &mut self,
        lhs: VarBaseDesc,
        rhs: &str,
        var_a: VarBaseDesc,
        op: &str,
        var_b: Option<VarBaseDesc>,
        ap_change: usize,
    )
        ensures
            final(self)@ == old(self)@.add_assert(
                lhs@,
                ExprDesc { expr: rhs@, var_a: var_a@, op: op@, var_b: var_base_view(var_b) },
                ap_change,
            ),
    {
        let expr = ExprDesc { expr: rhs.to_owned(), var_a, op: op.to_owned(), var_b };
        let statement = match self.statements.pop() {
            Some(StatementDesc::TempVar(tv)) if tv.name == lhs.name && tv.expr.is_none() => {
                StatementDesc::TempVar(VarDesc { expr: Some(expr), ..tv })
            },
            Some(StatementDesc::LocalVar(lv)) if lv.name == lhs.name && lv.expr.is_none() => {
                StatementDesc::LocalVar(VarDesc { expr: Some(expr), ..lv })
            },
            last => {
                if let Some(last) = last {
                    self.statements.push(last);
                }
                StatementDesc::Assert(AssertDesc { lhs, expr, ap_change })
            },
        };
        self.statements.push(statement);
    }

    /// Records an unconditional jump.
    pub fn add_jump(&mut self, label: &str, ap_change: usize)
        ensures
            final(self)@ == old(self)@.add_jump(label@, None, ap_change),
    {
        self.push_statement(
            StatementDesc::Jump(JumpDesc { target: label.to_owned(), cond_var: None, ap_change }),
        );
    }

    /// Records a conditional jump.
    pub fn add_jump_nz(&mut self, label: &str, cond_var: VarBaseDesc, ap_change: usize)
        ensures
            final(self)@ == old(self)@.add_jump(label@, Some(cond_var@), ap_change),
    {
        self.push_statement(
            StatementDesc::Jump(
                JumpDesc { target: label.to_owned(), cond_var: Some(cond_var), ap_change },
            ),
        );
    }

    /// Records a label.
    pub fn add_label(&mut self, label: &str, ap_change: usize)
        ensures
            final(self)@ == old(self)@.add_label(label@, ap_change),
    {
        self.push_statement(StatementDesc::Label(LabelDesc { label: label.to_owned(), ap_change }));
    }

    /// Records a failure.
    pub fn add_fail(&mut self)
        ensures
            final(self)@ == old(self)@.with_statement(StatementDesc::Fail),
    {
        self.push_statement(StatementDesc::Fail);
    }

    /// Sets the algorithm.
    pub fn set_alg_type(&mut self, alg_type: LibfuncAlgTypeDesc)
        ensures
            final(self)@ == (AuxiliaryInfoView { alg_type: Some(alg_type@), ..old(self)@ }),
    {
        self.alg_type = Some(alg_type);
    }

    /// Records the number of instructions generated for the code built up to here (additional
    /// instructions may be added later).
    pub fn finalize(&mut self, num_casm_instructions: usize)
        ensures
            final(self)@ == (AuxiliaryInfoView {
                core_libfunc_instr_num: num_casm_instructions,
                ..old(self)@
            }),
    {
        self.core_libfunc_instr_num = num_casm_instructions;
    }
}

/// The views of returned values.
pub open spec fn exprs_view(exprs: Seq<RetExprDesc>) -> Seq<Seq<NameView>> {
    exprs.map_values(|expr: RetExprDesc| expr@)
}

/// The views of strings.
pub open spec fn strings_view(strings: Seq<String>) -> Seq<NameView> {
    strings.map_values(|string: String| string@)
}

} // verus!
