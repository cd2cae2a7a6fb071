//! The statements of a program, and what is recorded of them.

use cairo_lang_casm::bigint::BigInt;
use cairo_lang_casm::builder::statements::Named;
use cairo_lang_casm::builder::{
    AssertDesc, CasmBuilder, CasmBuilderAuxiliaryInfo, ConstDesc, ExprDesc, JumpDesc, LabelDesc,
    LibfuncAlgTypeDesc, RetBranchDesc, RetExprDesc, StatementDesc, Var, VarBaseDesc, VarDesc,
};
use cairo_lang_casm::cell_expression::{CellExpression, CellOperator};
use cairo_lang_casm::operand::{CellRef, DerefOrImmediate, Register};

fn ap(offset: i16) -> CellExpression {
    CellExpression::Deref(CellRef { register: Register::AP, offset })
}

fn fp_cell(offset: i16) -> CellRef {
    CellRef { register: Register::FP, offset }
}

fn fp(offset: i16) -> CellExpression {
    CellExpression::Deref(fp_cell(offset))
}

fn imm(value: i128) -> CellExpression {
    CellExpression::Immediate(BigInt::from_i128(value))
}

fn desc(name: &str, var_expr: CellExpression) -> VarBaseDesc {
    VarBaseDesc { name: name.to_owned(), var_expr }
}

fn expr(text: &str, var_a: VarBaseDesc, op: &str, var_b: Option<VarBaseDesc>) -> ExprDesc {
    ExprDesc { expr: text.to_owned(), var_a, op: op.to_owned(), var_b }
}

fn named(name: &str, var: Var) -> Named<'_> {
    Named { name, var }
}

/// A builder with the arguments `a = [fp - 3]` and `b = [fp - 4]`.
fn with_args() -> (CasmBuilder, Var, Var) {
    let mut builder = CasmBuilder::default();
    let a = builder.add_var(fp(-3));
    let b = builder.add_var(fp(-4));
    (builder, a, b)
}

fn recorded(mut builder: CasmBuilder) -> CasmBuilderAuxiliaryInfo {
    builder.move_aux_info().unwrap()
}

#[test]
fn information_is_taken_out_once() {
    let mut builder = CasmBuilder::default();
    builder.tempvar("x");
    assert_eq!(builder.move_aux_info().unwrap().statements.len(), 1);
    assert!(builder.move_aux_info().is_none());
    // Without information the code is the same.
    let x = builder.tempvar("x");
    let c = builder.constant("c", BigInt::one(), "1");
    builder.assert_var(named("x", x), named("c", c));
    assert_eq!(builder.steps(), 1);
    assert!(builder.aux_info.is_none());
}

#[test]
fn variables_are_recorded() {
    let mut builder = CasmBuilder::default();
    let x = builder.tempvar("x");
    builder.ap_plus(3);
    let y = builder.localvar("y");
    let info = recorded(builder);
    assert_eq!(
        info.statements,
        vec![
            StatementDesc::TempVar(VarDesc {
                name: "x".to_owned(),
                var_expr: ap(0),
                expr: None,
                ap_change: 0,
            }),
            StatementDesc::ApPlus(3),
            StatementDesc::LocalVar(VarDesc {
                name: "y".to_owned(),
                var_expr: fp(1),
                expr: None,
                ap_change: 3,
            }),
        ]
    );
    assert_eq!(info.var_names[&x.index()], "x");
    assert_eq!(info.var_names[&y.index()], "y");
    assert!(info.not_empty());
}

#[test]
fn constants_are_recorded() {
    let mut builder = CasmBuilder::default();
    let c = builder.constant("c", BigInt::from_i128(-8), "2 - 10");
    assert_eq!(builder.get_value(c, false), imm(-8));
    let info = recorded(builder);
    assert_eq!(
        info.consts,
        vec![ConstDesc { name: "c".to_owned(), expr: "2 - 10".to_owned(), value: imm(-8) }]
    );
    assert_eq!(info.var_names[&c.index()], "c");
    assert!(!info.not_empty());
}

#[test]
fn the_first_assertion_defines_a_tempvar() {
    let (mut builder, a, b) = with_args();
    let x = builder.tempvar("x");
    builder.assert_var(named("x", x), named("a", a));
    builder.assert_var(named("x", x), named("b", b));
    assert_eq!(builder.steps(), 2);
    let info = recorded(builder);
    assert_eq!(
        info.statements,
        vec![
            StatementDesc::TempVar(VarDesc {
                name: "x".to_owned(),
                var_expr: ap(0),
                expr: Some(expr("a", desc("a", fp(-3)), "", None)),
                ap_change: 0,
            }),
            StatementDesc::Assert(AssertDesc {
                lhs: desc("x", ap(0)),
                expr: expr("b", desc("b", fp(-4)), "", None),
                ap_change: 1,
            }),
        ]
    );
}

#[test]
fn the_first_assertion_defines_a_localvar() {
    let (mut builder, a, b) = with_args();
    let x = builder.localvar("x");
    builder.assert_op(named("x", x), named("a", a), CellOperator::Sub, named("b", b));
    let info = recorded(builder);
    assert_eq!(
        info.statements,
        vec![StatementDesc::LocalVar(VarDesc {
            name: "x".to_owned(),
            var_expr: fp(0),
            expr: Some(expr("a - b", desc("a", fp(-3)), "-", Some(desc("b", fp(-4))))),
            ap_change: 0,
        })]
    );
}

#[test]
fn an_assertion_on_another_variable_defines_nothing() {
    let (mut builder, a, b) = with_args();
    builder.tempvar("x");
    builder.assert_var(named("a", a), named("b", b));
    let info = recorded(builder);
    assert_eq!(info.statements.len(), 2);
    assert_eq!(
        info.statements[1],
        StatementDesc::Assert(AssertDesc {
            lhs: desc("a", fp(-3)),
            expr: expr("b", desc("b", fp(-4)), "", None),
            ap_change: 1,
        })
    );
}

#[test]
fn operations_are_recorded_with_their_signs() {
    let cases = [
        (CellOperator::Add, "+", "a + b"),
        (CellOperator::Sub, "-", "a - b"),
        (CellOperator::Mul, "*", "a * b"),
        (CellOperator::Div, "/", "a / b"),
    ];
    for (op, sign, text) in cases {
        let (mut builder, a, b) = with_args();
        builder.assert_op(named("a", a), named("a", a), op, named("b", b));
        let c = builder.let_op("c", named("a", a), op, named("b", b));
        let value =
            CellExpression::BinOp { op, a: fp_cell(-3), b: DerefOrImmediate::Deref(fp_cell(-4)) };
        assert_eq!(builder.get_value(c, false), value);
        assert_eq!(builder.steps(), 1);
        let info = recorded(builder);
        let recorded_expr =
            || expr(text, desc("a", fp(-3)), sign, Some(desc("b", fp(-4))));
        assert_eq!(
            info.statements,
            vec![
                StatementDesc::Assert(AssertDesc {
                    lhs: desc("a", fp(-3)),
                    expr: recorded_expr(),
                    ap_change: 0,
                }),
                StatementDesc::Let(AssertDesc {
                    lhs: desc("c", value),
                    expr: recorded_expr(),
                    ap_change: 0,
                }),
            ]
        );
        assert_eq!(info.var_names[&c.index()], "c");
    }
}

#[test]
fn places_of_buffers_are_recorded() {
    let (mut builder, a, b) = with_args();
    builder.assert_at(named("a", a), named("b", b), 1 + 1, "1 + 1");
    builder.assert_deref(named("a", a), named("b", b));
    builder.assert_deref_inc(named("a", a), named("b", b));
    let moved = || CellExpression::BinOp {
        op: CellOperator::Add,
        a: fp_cell(-4),
        b: DerefOrImmediate::Immediate(BigInt::one()),
    };
    assert_eq!(builder.get_value(b, false), moved());
    assert_eq!(builder.steps(), 3);
    let info = recorded(builder);
    let of_a = |expr| {
        StatementDesc::Assert(AssertDesc { lhs: desc("a", fp(-3)), expr, ap_change: 0 })
    };
    assert_eq!(
        info.statements,
        vec![
            of_a(expr("mem (b + (1 + 1))", desc("b", fp(-4)), "*(+)", None)),
            of_a(expr("mem b", desc("b", fp(-4)), "*()", None)),
            // The place is recorded before the buffer moves on.
            of_a(expr("mem b", desc("b", fp(-4)), "*()", None)),
        ]
    );
}

#[test]
fn names_of_places_are_recorded() {
    let (mut builder, _, b) = with_args();
    let x = builder.let_at("x", named("b", b), -1, "-1");
    let y = builder.let_deref("y", named("b", b));
    let z = builder.let_deref_inc("z", named("b", b));
    let w = builder.let_var("w", named("z", z));
    let there = |offset| CellExpression::DoubleDeref(fp_cell(-4), offset);
    assert_eq!(builder.get_value(x, false), there(-1));
    assert_eq!(builder.get_value(y, false), there(0));
    assert_eq!(builder.get_value(z, false), there(0));
    assert_eq!(builder.get_value(w, false), there(0));
    assert_eq!(builder.steps(), 0);
    let moved = CellExpression::BinOp {
        op: CellOperator::Add,
        a: fp_cell(-4),
        b: DerefOrImmediate::Immediate(BigInt::one()),
    };
    let info = recorded(builder);
    let of = |lhs, expr| StatementDesc::Let(AssertDesc { lhs, expr, ap_change: 0 });
    assert_eq!(
        info.statements,
        vec![
            of(desc("x", there(-1)), expr("mem (b + (-1))", desc("b", fp(-4)), "*(+)", None)),
            of(desc("y", there(0)), expr("mem b", desc("b", fp(-4)), "*()", None)),
            of(desc("z", there(0)), expr("mem b", desc("b", moved), "*()", None)),
            of(desc("w", there(0)), expr("z", desc("z", there(0)), "", None)),
        ]
    );
    assert_eq!(info.var_names[&w.index()], "w");
}

#[test]
fn jumps_and_labels_are_recorded() {
    let (mut builder, a, _) = with_args();
    builder.ap_plus(2);
    builder.jump_to_nz("End", named("a", a));
    builder.jump_to("Start");
    builder.label_here("End");
    builder.fail_here();
    let info = recorded(builder);
    assert_eq!(
        info.statements,
        vec![
            StatementDesc::ApPlus(2),
            StatementDesc::Jump(JumpDesc {
                target: "End".to_owned(),
                cond_var: Some(desc("a", fp(-3))),
                ap_change: 2,
            }),
            // After a jump the builder is at the beginning of a run.
            StatementDesc::Jump(JumpDesc {
                target: "Start".to_owned(),
                cond_var: None,
                ap_change: 0,
            }),
            StatementDesc::Label(LabelDesc { label: "End".to_owned(), ap_change: 2 }),
            StatementDesc::Fail,
        ]
    );
}

#[test]
fn returned_values_are_before_ap() {
    let mut builder = CasmBuilder::default();
    let [x, y, z] = builder.call_returning("function");
    assert_eq!(builder.get_value(x, false), ap(-3));
    assert_eq!(builder.get_value(y, false), ap(-2));
    assert_eq!(builder.get_value(z, false), ap(-1));
    assert_eq!([x.index(), y.index(), z.index()], [0, 1, 2]);
    let [] = builder.call_returning("function");
    assert!(!builder.has_value(x, false));
    assert_eq!(builder.steps(), 2);
    assert!(builder.can_return(32767));
    assert!(!builder.can_return(32768));
    assert!(recorded(builder).statements.is_empty());
}

#[test]
fn a_single_jump_is_as_good_as_nothing() {
    let mut info = CasmBuilderAuxiliaryInfo::default();
    assert!(!info.not_empty());
    info.add_jump("End", 0);
    assert!(!info.not_empty());
    info.add_jump("End", 0);
    assert!(info.not_empty());
    let mut info = CasmBuilderAuxiliaryInfo::default();
    info.add_jump_nz("End", desc("x", ap(0)), 0);
    assert!(info.not_empty());
    let mut info = CasmBuilderAuxiliaryInfo::default();
    info.add_fail();
    assert!(info.not_empty());
}

#[test]
fn arguments_and_branches_are_recorded() {
    let mut builder = CasmBuilder::default();
    let a = builder.add_var(fp(-3));
    let b = builder.add_var(fp(-4));
    let c = builder.add_var(fp(-5));
    let mut info = recorded(builder);
    info.add_arg("a", a, fp(-3));
    info.add_arg("b", b, fp(-4));
    info.add_return_branch("Fallthrough", &[&[a], &[], &[c, b]]);
    assert_eq!(info.args, vec![(a, fp(-3)), (b, fp(-4))]);
    assert_eq!(
        info.return_branches,
        vec![RetBranchDesc {
            name: "Fallthrough".to_owned(),
            exprs: vec![
                RetExprDesc { names: vec!["a".to_owned()] },
                RetExprDesc { names: vec![] },
                RetExprDesc { names: vec!["ρ".to_owned(), "b".to_owned()] },
            ],
        }]
    );
    assert_eq!(info.return_branches[0].flat_exprs(), vec!["a", "ρ", "b"]);
}

#[test]
fn names_can_be_given_anew() {
    let mut builder = CasmBuilder::default();
    let a = builder.add_var(fp(-3));
    let mut info = recorded(builder);
    info.add_arg("a", a, fp(-3));
    info.add_tempvar("again", a, fp(-3), 4);
    info.add_return_branch("Out", &[&[a]]);
    assert_eq!(info.return_branches[0].flat_exprs(), vec!["again"]);
}

#[test]
fn other_information_is_set() {
    let mut info = CasmBuilderAuxiliaryInfo::default();
    assert_eq!(info.core_libfunc_instr_num, 0);
    assert_eq!(info.alg_type, None);
    info.finalize(12);
    info.set_alg_type(LibfuncAlgTypeDesc::DivRemKnownSmallLhs { lhs_upper_sqrt: BigInt::one() });
    assert_eq!(info.core_libfunc_instr_num, 12);
    assert_eq!(
        info.alg_type,
        Some(LibfuncAlgTypeDesc::DivRemKnownSmallLhs { lhs_upper_sqrt: BigInt::one() })
    );
    info.set_alg_type(LibfuncAlgTypeDesc::DivRemKnownSmallRhs);
    assert_eq!(info.alg_type, Some(LibfuncAlgTypeDesc::DivRemKnownSmallRhs));
    let var = CasmBuilder::default().add_var(ap(0));
    assert_eq!(info.make_var_desc("x", var, ap(1)), desc("x", ap(1)));
}

fn branch() -> RetBranchDesc {
    RetBranchDesc {
        name: "Out".to_owned(),
        exprs: vec![
            RetExprDesc { names: vec!["a".to_owned(), "b".to_owned()] },
            RetExprDesc { names: vec![] },
            RetExprDesc { names: vec!["c".to_owned()] },
        ],
    }
}

#[test]
fn names_are_found_by_position() {
    let branch = branch();
    assert_eq!(branch.get_expr_at_pos(0).as_deref(), Some("a"));
    assert_eq!(branch.get_expr_at_pos(1).as_deref(), Some("b"));
    assert_eq!(branch.get_expr_at_pos(2).as_deref(), Some("c"));
    assert_eq!(branch.get_expr_at_pos(3), None);
    assert_eq!(branch.get_expr_at_pos(usize::MAX), None);
    for (pos, name) in branch.flat_exprs().into_iter().enumerate() {
        assert_eq!(branch.get_expr_at_pos(pos), Some(name));
    }
}

#[test]
fn names_are_found_from_the_end() {
    let branch = branch();
    assert_eq!(branch.get_expr_at_pos_from_end(0, 0).as_deref(), Some("c"));
    assert_eq!(branch.get_expr_at_pos_from_end(1, 0).as_deref(), Some("b"));
    assert_eq!(branch.get_expr_at_pos_from_end(2, 0).as_deref(), Some("a"));
    assert_eq!(branch.get_expr_at_pos_from_end(3, 0), None);
    assert_eq!(branch.get_expr_at_pos_from_end(1, 1).as_deref(), Some("b"));
    assert_eq!(branch.get_expr_at_pos_from_end(2, 1), None);
    assert_eq!(branch.get_expr_at_pos_from_end(0, 3), None);
    assert_eq!(branch.get_expr_at_pos_from_end(0, 4), None);
    assert_eq!(branch.get_expr_at_pos_from_end(usize::MAX, usize::MAX), None);
}
