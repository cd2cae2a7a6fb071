//! The auxiliary information.

use vstd::prelude::*;

use crate::aux_info::{
    AssertDesc, AuxiliaryInfoView, ConstDesc, ExprDesc, JumpDesc, LabelDesc, NameView,
    RetBranchView, StatementDesc, ValueView, VarBaseDesc, VarDesc,
};
use crate::state::Var;

verus! {

/// The first assertion on a temporary variable, right after it, is recorded as its definition, and
/// not as a statement of its own; the next one is a statement of its own.
pub proof fn law_assert_defines_tempvar(
    info: AuxiliaryInfoView,
    var: Var,
    lhs: VarBaseDesc<NameView, ValueView>,
    value: ValueView,
    expr: ExprDesc<NameView, ValueView>,
    ap_change: usize,
    next: ExprDesc<NameView, ValueView>,
    later_ap_change: usize,
)
    ensures
        ({
            let recorded = info.add_tempvar(lhs.name, var, value, ap_change).add_assert(
                lhs,
                expr,
                later_ap_change,
            );
            &&& recorded.statements == info.statements.push(
                StatementDesc::TempVar(
                    VarDesc { name: lhs.name, var_expr: value, expr: Some(expr), ap_change },
                ),
            )
            &&& recorded.add_assert(lhs, next, later_ap_change).statements.len()
                == info.statements.len() + 2
        }),
{
}

/// The first assertion on a local variable, right after it, is recorded as its definition, and not
/// as a statement of its own; the next one is a statement of its own.
pub proof fn law_assert_defines_localvar(
    info: AuxiliaryInfoView,
    var: Var,
    lhs: VarBaseDesc<NameView, ValueView>,
    value: ValueView,
    expr: ExprDesc<NameView, ValueView>,
    ap_change: usize,
    next: ExprDesc<NameView, ValueView>,
    later_ap_change: usize,
)
    ensures
        ({
            let recorded = info.add_localvar(lhs.name, var, value, ap_change).add_assert(
                lhs,
                expr,
                later_ap_change,
            );
            &&& recorded.statements == info.statements.push(
                StatementDesc::LocalVar(
                    VarDesc { name: lhs.name, var_expr: value, expr: Some(expr), ap_change },
                ),
            )
            &&& recorded.add_assert(lhs, next, later_ap_change).statements.len()
                == info.statements.len() + 2
        }),
{
}

/// An assertion changes no statement but the last, and that only if it defines its variable.
pub proof fn law_assert_keeps_statements(
    info: AuxiliaryInfoView,
    lhs: VarBaseDesc<NameView, ValueView>,
    expr: ExprDesc<NameView, ValueView>,
    ap_change: usize,
    i: int,
)
    requires
        0 <= i < info.statements.len(),
        i < info.statements.len() - 1 || !(info.statements[i] is TempVar || info.statements[i]
            is LocalVar),
    ensures
        info.add_assert(lhs, expr, ap_change).statements[i] == info.statements[i],
{
}

/// A variable has the name that it was given last, and naming one does not touch the others.
pub proof fn law_names(info: AuxiliaryInfoView, var: Var, name: NameView, other: Var)
    ensures
        info.with_name(var, name).name_of(other) == (if other == var {
            name
        } else {
            info.name_of(other)
        }),
{
}

/// Flattening the images of lists is flattening the lists and taking the images.
proof fn lemma_flatten_images<A, B>(lists: Seq<Seq<A>>, f: spec_fn(A) -> B)
    ensures
        lists.map_values(|list: Seq<A>| list.map_values(f)).flatten()
            == lists.flatten().map_values(f),
    decreases lists.len(),
{
    let images = lists.map_values(|list: Seq<A>| list.map_values(f));
    if lists.len() > 0 {
        lemma_flatten_images(lists.drop_first(), f);
        assert(images.drop_first() =~= lists.drop_first().map_values(
            |list: Seq<A>| list.map_values(f),
        ));
        assert((lists.first() + lists.drop_first().flatten()).map_values(f)
            =~= lists.first().map_values(f) + lists.drop_first().flatten().map_values(f));
    }
}

/// A branch that returns variables returns their names, in the order of the variables.
pub proof fn law_return_branch_has_names(
    info: AuxiliaryInfoView,
    name: NameView,
    vars: Seq<Seq<Var>>,
)
    ensures
        ({
            let branches = info.add_return_branch(name, vars).return_branches;
            &&& branches.drop_last() == info.return_branches
            &&& branches.last().name == name
            &&& branches.last().flat() == vars.flatten().map_values(|var: Var| info.name_of(var))
        }),
{
    lemma_flatten_images(vars, |var: Var| info.name_of(var));
    assert(info.add_return_branch(name, vars).return_branches.drop_last()
        =~= info.return_branches);
}

/// Nothing is recorded at first, and no variable has a name.
pub proof fn law_nothing_recorded(var: Var)
    ensures
        ({
            let info = AuxiliaryInfoView::empty();
            &&& !info.var_names.contains_key(var)
            &&& info.consts.len() == 0
            &&& info.args.len() == 0
            &&& info.statements.len() == 0
            &&& info.return_branches.len() == 0
            &&& info.core_libfunc_instr_num == 0
            &&& info.alg_type is None
        }),
{
}

/// A variable without a name is called "\u{3c1}".
pub proof fn law_placeholder(info: AuxiliaryInfoView, var: Var)
    ensures
        info.var_names.contains_key(var) ==> info.name_of(var) == info.var_names[var],
        !info.var_names.contains_key(var) ==> info.name_of(var) == seq!['\u{3c1}'],
{
    reveal_strlit("ρ");
    assert("ρ"@ =~= seq!['\u{3c1}']);
}

/// Whether `after` is `before` with one more statement, `statement`, and no other change but to the
/// names of variables.
pub open spec fn adds_record(
    before: AuxiliaryInfoView,
    after: AuxiliaryInfoView,
    statement: StatementDesc<NameView, ValueView>,
) -> bool {
    &&& after.statements.len() == before.statements.len() + 1
    &&& after.statements.last() == statement
    &&& after.statements.drop_last() == before.statements
    &&& after.consts == before.consts
    &&& after.args == before.args
    &&& after.return_branches == before.return_branches
    &&& after.core_libfunc_instr_num == before.core_libfunc_instr_num
    &&& after.alg_type == before.alg_type
}

/// Whether `after` has the names of `before`, and `name` for `var`.
pub open spec fn adds_name(
    before: AuxiliaryInfoView,
    after: AuxiliaryInfoView,
    var: Var,
    name: NameView,
) -> bool {
    &&& after.var_names.contains_key(var)
    &&& after.var_names[var] == name
    &&& forall|other: Var|
        other != var ==> (#[trigger] after.var_names.contains_key(other)
            <==> before.var_names.contains_key(other))
    &&& forall|other: Var|
        other != var ==> #[trigger] after.var_names[other] == before.var_names[other]
}

/// Variables are recorded as what they are, with their names, the values that they were given and
/// the AP change, and without a definition.
pub proof fn law_variables_are_recorded(
    info: AuxiliaryInfoView,
    name: NameView,
    var: Var,
    value: ValueView,
    ap_change: usize,
)
    ensures
        ({
            let temp = info.add_tempvar(name, var, value, ap_change);
            let local = info.add_localvar(name, var, value, ap_change);
            let desc = VarDesc { name, var_expr: value, expr: None, ap_change };
            &&& adds_record(info, temp, StatementDesc::TempVar(desc))
            &&& adds_name(info, temp, var, name)
            &&& adds_record(info, local, StatementDesc::LocalVar(desc))
            &&& adds_name(info, local, var, name)
        }),
{
    assert(info.add_tempvar(name, var, value, ap_change).statements.drop_last()
        =~= info.statements);
    assert(info.add_localvar(name, var, value, ap_change).statements.drop_last()
        =~= info.statements);
}

/// An argument is recorded with its name and its value, after the others, and nothing else changes.
pub proof fn law_arguments_are_recorded(
    info: AuxiliaryInfoView,
    name: NameView,
    var: Var,
    value: ValueView,
)
    ensures
        ({
            let after = info.add_arg(name, var, value);
            &&& adds_name(info, after, var, name)
            &&& after.args.len() == info.args.len() + 1
            &&& after.args.last() == (var, value)
            &&& after.args.drop_last() == info.args
            &&& after == (AuxiliaryInfoView {
                var_names: after.var_names,
                args: after.args,
                ..info
            })
        }),
{
    assert(info.add_arg(name, var, value).args.drop_last() =~= info.args);
}

/// A constant is recorded with its name, its source and its value, after the others, and nothing
/// else changes.
pub proof fn law_constants_are_recorded(
    info: AuxiliaryInfoView,
    name: NameView,
    var: Var,
    expr: NameView,
    value: ValueView,
)
    ensures
        ({
            let after = info.add_const(name, var, expr, value);
            &&& adds_name(info, after, var, name)
            &&& after.consts.len() == info.consts.len() + 1
            &&& after.consts.last() == ConstDesc { name, expr, value }
            &&& after.consts.drop_last() == info.consts
            &&& after == (AuxiliaryInfoView {
                var_names: after.var_names,
                consts: after.consts,
                ..info
            })
        }),
{
    assert(info.add_const(name, var, expr, value).consts.drop_last() =~= info.consts);
}

/// The definition of a name is recorded as it is, and the variable gets the name.
pub proof fn law_definitions_are_recorded(
    info: AuxiliaryInfoView,
    lhs: VarBaseDesc<NameView, ValueView>,
    var: Var,
    expr: ExprDesc<NameView, ValueView>,
    ap_change: usize,
)
    ensures
        ({
            let after = info.add_let(lhs, var, expr, ap_change);
            &&& adds_record(info, after, StatementDesc::Let(AssertDesc { lhs, expr, ap_change }))
            &&& adds_name(info, after, var, lhs.name)
        }),
{
    assert(info.add_let(lhs, var, expr, ap_change).statements.drop_last() =~= info.statements);
}

/// Whether the last statement is a variable of this name that has no definition yet.
pub open spec fn awaits_definition(info: AuxiliaryInfoView, name: NameView) -> bool {
    &&& info.statements.len() > 0
    &&& match info.statements.last() {
        StatementDesc::TempVar(desc) | StatementDesc::LocalVar(desc) => desc.name == name
            && desc.expr is None,
        _ => false,
    }
}

/// An assertion on the variable that was recorded just before, if that has no definition, becomes
/// its definition and leaves the rest of it as it is. Any other assertion is a statement of its
/// own. No name changes.
pub proof fn law_assertions_are_recorded(
    info: AuxiliaryInfoView,
    lhs: VarBaseDesc<NameView, ValueView>,
    expr: ExprDesc<NameView, ValueView>,
    ap_change: usize,
)
    ensures
        ({
            let after = info.add_assert(lhs, expr, ap_change);
            &&& after.var_names == info.var_names
            &&& !awaits_definition(info, lhs.name) ==> adds_record(
                info,
                after,
                StatementDesc::Assert(AssertDesc { lhs, expr, ap_change }),
            )
            &&& awaits_definition(info, lhs.name) ==> {
                &&& after.statements.len() == info.statements.len()
                &&& after.statements.drop_last() == info.statements.drop_last()
                &&& match info.statements.last() {
                    StatementDesc::TempVar(desc) => after.statements.last()
                        == StatementDesc::TempVar(
                        VarDesc {
                            name: desc.name,
                            var_expr: desc.var_expr,
                            expr: Some(expr),
                            ap_change: desc.ap_change,
                        },
                    ),
                    StatementDesc::LocalVar(desc) => after.statements.last()
                        == StatementDesc::LocalVar(
                        VarDesc {
                            name: desc.name,
                            var_expr: desc.var_expr,
                            expr: Some(expr),
                            ap_change: desc.ap_change,
                        },
                    ),
                    _ => false,
                }
                &&& after == (AuxiliaryInfoView { statements: after.statements, ..info })
            }
        }),
{
    let after = info.add_assert(lhs, expr, ap_change);
    if awaits_definition(info, lhs.name) {
        assert(after.statements.drop_last() =~= info.statements.drop_last());
    } else {
        assert(after.statements.drop_last() =~= info.statements);
    }
}

/// Jumps and labels are recorded as they are, with the AP change, and no name changes.
pub proof fn law_jumps_and_labels_are_recorded(
    info: AuxiliaryInfoView,
    target: NameView,
    cond_var: Option<VarBaseDesc<NameView, ValueView>>,
    ap_change: usize,
)
    ensures
        ({
            let jump = info.add_jump(target, cond_var, ap_change);
            let label = info.add_label(target, ap_change);
            &&& adds_record(
                info,
                jump,
                StatementDesc::Jump(JumpDesc { target, cond_var, ap_change }),
            )
            &&& jump.var_names == info.var_names
            &&& adds_record(
                info,
                label,
                StatementDesc::Label(LabelDesc { label: target, ap_change }),
            )
            &&& label.var_names == info.var_names
        }),
{
    assert(info.add_jump(target, cond_var, ap_change).statements.drop_last() =~= info.statements);
    assert(info.add_label(target, ap_change).statements.drop_last() =~= info.statements);
}

/// Any other statement is recorded as it is, and no name changes.
pub proof fn law_statements_are_recorded(
    info: AuxiliaryInfoView,
    statement: StatementDesc<NameView, ValueView>,
)
    ensures
        adds_record(info, info.with_statement(statement), statement),
        info.with_statement(statement).var_names == info.var_names,
{
    assert(info.with_statement(statement).statements.drop_last() =~= info.statements);
}

/// A return branch is recorded with its name and with the name of each of its variables, in their
/// places, after the other branches. Nothing else changes.
pub proof fn law_return_branches_are_recorded(
    info: AuxiliaryInfoView,
    name: NameView,
    vars: Seq<Seq<Var>>,
    i: int,
    j: int,
)
    requires
        0 <= i < vars.len(),
        0 <= j < vars[i].len(),
    ensures
        ({
            let after = info.add_return_branch(name, vars);
            let branch = after.return_branches.last();
            &&& after.return_branches.len() == info.return_branches.len() + 1
            &&& after.return_branches.drop_last() == info.return_branches
            &&& branch.name == name
            &&& branch.exprs.len() == vars.len()
            &&& branch.exprs[i].len() == vars[i].len()
            &&& branch.exprs[i][j] == info.name_of(vars[i][j])
            &&& after == (AuxiliaryInfoView { return_branches: after.return_branches, ..info })
        }),
{
    assert(info.add_return_branch(name, vars).return_branches.drop_last()
        =~= info.return_branches);
}

/// The block is empty if and only if nothing is recorded, or a single jump without a condition.
pub proof fn law_not_empty(info: AuxiliaryInfoView)
    ensures
        !info.not_empty() <==> info.statements.len() == 0 || (info.statements.len() == 1
            && info.statements[0] is Jump && info.statements[0]->Jump_0.cond_var is None),
{
}

/// The number of names in the first `n` of the expressions.
pub open spec fn names_before(exprs: Seq<Seq<NameView>>, n: int) -> nat
    decreases n,
{
    if n <= 0 {
        0
    } else {
        names_before(exprs, n - 1) + exprs[n - 1].len()
    }
}

/// All the names are those of the expressions, one expression after the other: the name number `j`
/// of the expression number `i` comes after the names of the expressions before and `j` of its own.
pub proof fn law_flat_names(branch: RetBranchView, i: int, j: int)
    requires
        0 <= i < branch.exprs.len(),
        0 <= j < branch.exprs[i].len(),
    ensures
        branch.flat().len() == names_before(branch.exprs, branch.exprs.len() as int),
        names_before(branch.exprs, i) + j < branch.flat().len(),
        branch.flat()[names_before(branch.exprs, i) + j] == branch.exprs[i][j],
{
    lemma_flat_names(branch.exprs, branch.exprs.len() as int, i, j);
    assert(branch.exprs.take(branch.exprs.len() as int) =~= branch.exprs);
}

/// Where the names of the first `n` expressions stand.
proof fn lemma_flat_names(exprs: Seq<Seq<NameView>>, n: int, i: int, j: int)
    requires
        0 <= n <= exprs.len(),
    ensures
        exprs.take(n).flatten().len() == names_before(exprs, n),
        0 <= i < n && 0 <= j < exprs[i].len() ==> names_before(exprs, i) + j < names_before(
            exprs,
            n,
        ) && exprs.take(n).flatten()[names_before(exprs, i) + j] == exprs[i][j],
    decreases n,
{
    if n > 0 {
        lemma_flat_names(exprs, n - 1, i, j);
        assert(exprs.take(n) =~= exprs.take(n - 1).push(exprs[n - 1]));
        exprs.take(n - 1).lemma_flatten_push(exprs[n - 1]);
    } else {
        assert(exprs.take(0) =~= Seq::empty());
    }
}

} // verus!
