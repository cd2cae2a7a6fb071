//! The builder, operation by operation.

use cairo_lang_casm::bigint::BigInt;
use cairo_lang_casm::builder::{CasmBuilder, Var};
use cairo_lang_casm::cell_expression::{CellExpression, CellOperator};
use cairo_lang_casm::hints::Hint;
use cairo_lang_casm::instructions::{
    AddApInstruction, AssertEqInstruction, CallInstruction, Instruction, InstructionBody,
    JnzInstruction, JumpInstruction, RetInstruction,
};
use cairo_lang_casm::operand::{
    BinOpOperand, CellRef, DerefOrImmediate, Operation, Register, ResOperand,
};

fn ap(offset: i16) -> CellRef {
    CellRef { register: Register::AP, offset }
}

fn fp(offset: i16) -> CellRef {
    CellRef { register: Register::FP, offset }
}

fn big(value: i128) -> BigInt {
    BigInt::from_i128(value)
}

fn imm(value: i128) -> CellExpression {
    CellExpression::Immediate(big(value))
}

fn plus(cell: CellRef, value: i128) -> CellExpression {
    CellExpression::BinOp {
        op: CellOperator::Add,
        a: cell,
        b: DerefOrImmediate::Immediate(big(value)),
    }
}

fn inst(body: InstructionBody, inc_ap: bool) -> Instruction {
    Instruction { body, inc_ap, hints: vec![] }
}

fn assert_eq_inst(a: CellRef, b: ResOperand, inc_ap: bool) -> Instruction {
    inst(InstructionBody::AssertEq(AssertEqInstruction { a, b }), inc_ap)
}

fn bin_op(op: Operation, a: CellRef, b: DerefOrImmediate) -> ResOperand {
    ResOperand::BinOp(BinOpOperand { op, a, b })
}

/// The only branch of code that falls through.
fn fallthrough(builder: CasmBuilder) -> Vec<Instruction> {
    builder.build(["Fallthrough"]).instructions
}

#[test]
fn a_new_builder_has_taken_no_steps() {
    let builder = CasmBuilder::default();
    assert_eq!(builder.steps(), 0);
    assert_eq!(builder.curr_ap_change(), 0);
    assert_eq!(builder.get_ap_change(), 0);
    assert!(builder.can_emit());
    assert!(builder.aux_info.is_some());
}

#[test]
fn an_empty_builder_builds_no_code() {
    let result = CasmBuilder::default().build(["Fallthrough"]);
    assert!(result.instructions.is_empty());
    assert_eq!(result.branches[0].0.ap_change, 0);
    assert_eq!(result.branches[0].0.steps, 0);
    assert!(result.branches[0].1.is_empty());
}

#[test]
fn variables_are_numbered() {
    let mut builder = CasmBuilder::default();
    let a = builder.add_var(imm(3));
    let b = builder.alloc_var(false);
    let c = builder.alloc_var(true);
    let d = builder.duplicate_var(a);
    assert_eq!([a.index(), b.index(), c.index(), d.index()], [0, 1, 2, 3]);
    assert_eq!(builder.get_value(a, false), imm(3));
    assert_eq!(builder.get_value(b, false), CellExpression::Deref(ap(0)));
    assert_eq!(builder.get_value(c, false), CellExpression::Deref(fp(1)));
    assert_eq!(builder.get_value(d, false), imm(3));
}

#[test]
fn values_follow_ap() {
    let mut builder = CasmBuilder::default();
    let a = builder.add_var(CellExpression::Deref(ap(-3)));
    let b = builder.add_var(CellExpression::DoubleDeref(ap(2), 7));
    let c = builder.add_var(plus(ap(0), 5));
    let d = builder.add_var(CellExpression::Deref(fp(-3)));
    let e = builder.add_var(CellExpression::BinOp {
        op: CellOperator::Mul,
        a: fp(1),
        b: DerefOrImmediate::Deref(ap(1)),
    });
    builder.add_ap(4);
    assert_eq!(builder.get_value(a, true), CellExpression::Deref(ap(-7)));
    assert_eq!(builder.get_value(b, true), CellExpression::DoubleDeref(ap(-2), 7));
    assert_eq!(builder.get_value(c, true), plus(ap(-4), 5));
    assert_eq!(builder.get_value(d, true), CellExpression::Deref(fp(-3)));
    assert_eq!(
        builder.get_value(e, true),
        CellExpression::BinOp {
            op: CellOperator::Mul,
            a: fp(1),
            b: DerefOrImmediate::Deref(ap(-3)),
        }
    );
    assert_eq!(builder.get_value(a, false), CellExpression::Deref(ap(-3)));
}

#[test]
fn values_out_of_reach_of_ap_are_not_to_be_had() {
    let mut builder = CasmBuilder::default();
    let near = builder.add_var(CellExpression::Deref(ap(0)));
    let far = builder.add_var(CellExpression::Deref(ap(-2)));
    builder.add_ap(32767);
    assert!(builder.has_value(near, true));
    assert_eq!(builder.get_value(near, true), CellExpression::Deref(ap(-32767)));
    assert!(builder.has_value(far, false));
    assert!(!builder.has_value(far, true));
    builder.add_ap(1);
    assert!(!builder.has_value(near, true));
}

#[test]
fn add_ap_adds_an_instruction() {
    let mut builder = CasmBuilder::default();
    builder.add_ap(7);
    assert_eq!(builder.curr_ap_change(), 7);
    assert_eq!(builder.steps(), 1);
    assert_eq!(
        fallthrough(builder),
        vec![inst(
            InstructionBody::AddAp(AddApInstruction { operand: ResOperand::Immediate(big(7)) }),
            false
        )]
    );
}

#[test]
fn increase_ap_change_adds_none() {
    let mut builder = CasmBuilder::default();
    builder.increase_ap_change(5);
    assert_eq!(builder.curr_ap_change(), 5);
    assert_eq!(builder.steps(), 0);
    let a = builder.alloc_var(false);
    assert_eq!(builder.get_value(a, false), CellExpression::Deref(ap(5)));
    assert_eq!(builder.get_value(a, true), CellExpression::Deref(ap(0)));
    assert!(!builder.can_increase_ap_change(32762));
    assert!(builder.can_increase_ap_change(32761));
    assert!(!builder.can_increase_ap_change(usize::MAX));
}

#[test]
fn assertions_pass_the_allocated_variables() {
    let mut builder = CasmBuilder::default();
    let five = builder.add_var(imm(5));
    let a = builder.alloc_var(false);
    let b = builder.alloc_var(false);
    builder.assert_vars_eq(a, five);
    assert_eq!(builder.curr_ap_change(), 1);
    builder.assert_vars_eq(b, a);
    assert_eq!(builder.curr_ap_change(), 2);
    builder.assert_vars_eq(b, a);
    assert_eq!(builder.curr_ap_change(), 2);
    assert_eq!(builder.steps(), 3);
    assert_eq!(
        fallthrough(builder),
        vec![
            assert_eq_inst(ap(0), ResOperand::Immediate(big(5)), true),
            assert_eq_inst(ap(0), ResOperand::Deref(ap(-1)), true),
            assert_eq_inst(ap(-1), ResOperand::Deref(ap(-2)), false),
        ]
    );
}

#[test]
fn assertions_add_and_multiply() {
    let mut builder = CasmBuilder::default();
    let dst = builder.add_var(CellExpression::Deref(fp(0)));
    let a = builder.add_var(CellExpression::Deref(fp(1)));
    let b = builder.add_var(CellExpression::Deref(fp(2)));
    let three = builder.add_var(imm(3));
    let sum = builder.bin_op(CellOperator::Add, a, b);
    let product = builder.bin_op(CellOperator::Mul, a, three);
    let difference = builder.bin_op(CellOperator::Sub, a, b);
    let quotient = builder.bin_op(CellOperator::Div, a, three);
    let there = builder.double_deref(a, -4);
    builder.assert_vars_eq(dst, sum);
    builder.assert_vars_eq(dst, product);
    builder.assert_vars_eq(dst, difference);
    builder.assert_vars_eq(dst, quotient);
    builder.assert_vars_eq(dst, there);
    assert_eq!(
        fallthrough(builder),
        vec![
            assert_eq_inst(
                fp(0),
                bin_op(Operation::Add, fp(1), DerefOrImmediate::Deref(fp(2))),
                false
            ),
            assert_eq_inst(
                fp(0),
                bin_op(Operation::Mul, fp(1), DerefOrImmediate::Immediate(big(3))),
                false
            ),
            // dst = a - b.
            assert_eq_inst(
                fp(1),
                bin_op(Operation::Add, fp(0), DerefOrImmediate::Deref(fp(2))),
                false
            ),
            // dst = a / 3.
            assert_eq_inst(
                fp(1),
                bin_op(Operation::Mul, fp(0), DerefOrImmediate::Immediate(big(3))),
                false
            ),
            assert_eq_inst(fp(0), ResOperand::DoubleDeref(fp(1), -4), false),
        ]
    );
}

#[test]
fn operations_take_a_cell_and_a_cell_or_a_constant() {
    let mut builder = CasmBuilder::default();
    let cell = builder.add_var(CellExpression::Deref(fp(1)));
    let constant = builder.add_var(imm(1));
    let sum = builder.bin_op(CellOperator::Add, cell, constant);
    assert!(builder.can_bin_op(cell, cell));
    assert!(builder.can_bin_op(cell, constant));
    assert!(!builder.can_bin_op(constant, cell));
    assert!(!builder.can_bin_op(cell, sum));
    assert!(!builder.can_bin_op(sum, cell));
}

#[test]
fn pointers_are_cells_plus_small_constants() {
    let mut builder = CasmBuilder::default();
    let cell = builder.add_var(CellExpression::Deref(fp(1)));
    let near = builder.add_var(plus(fp(1), 32000));
    let far = builder.add_var(plus(fp(1), 40000));
    let huge = builder.add_var(CellExpression::BinOp {
        op: CellOperator::Add,
        a: fp(1),
        b: DerefOrImmediate::Immediate(BigInt::new(false, vec![0, 0, 0, 0, 1])),
    });
    let product = builder.add_var(CellExpression::BinOp {
        op: CellOperator::Mul,
        a: fp(1),
        b: DerefOrImmediate::Immediate(big(2)),
    });
    let constant = builder.add_var(imm(1));
    let first = builder.double_deref(cell, 5);
    assert_eq!(builder.get_value(first, false), CellExpression::DoubleDeref(fp(1), 5));
    let second = builder.double_deref(near, 767);
    assert_eq!(builder.get_value(second, false), CellExpression::DoubleDeref(fp(1), 32767));
    let third = builder.double_deref(far, -10000);
    assert_eq!(builder.get_value(third, false), CellExpression::DoubleDeref(fp(1), 30000));
    assert!(!builder.can_double_deref(near, 768));
    assert!(!builder.can_double_deref(far, 0));
    assert!(!builder.can_double_deref(huge, 0));
    assert!(!builder.can_double_deref(product, 0));
    assert!(!builder.can_double_deref(constant, 0));
}

#[test]
fn a_buffer_is_written_place_by_place() {
    let mut builder = CasmBuilder::default();
    let buffer = builder.add_var(CellExpression::Deref(fp(-3)));
    let value = builder.add_var(CellExpression::Deref(fp(-4)));
    builder.buffer_write_and_inc(buffer, value);
    assert_eq!(builder.get_value(buffer, false), plus(fp(-3), 1));
    builder.buffer_write_and_inc(buffer, value);
    assert_eq!(builder.get_value(buffer, false), plus(fp(-3), 2));
    assert_eq!(
        fallthrough(builder),
        vec![
            assert_eq_inst(fp(-4), ResOperand::DoubleDeref(fp(-3), 0), false),
            assert_eq_inst(fp(-4), ResOperand::DoubleDeref(fp(-3), 1), false),
        ]
    );
}

#[test]
fn a_buffer_is_read_place_by_place() {
    let mut builder = CasmBuilder::default();
    let buffer = builder.add_var(plus(fp(-3), 4));
    let first = builder.get_ref_and_inc(buffer);
    let second = builder.get_ref_and_inc(buffer);
    assert_eq!(builder.get_value(first, false), CellExpression::DoubleDeref(fp(-3), 4));
    assert_eq!(builder.get_value(second, false), CellExpression::DoubleDeref(fp(-3), 5));
    assert_eq!(builder.get_value(buffer, false), plus(fp(-3), 6));
    assert_eq!(builder.steps(), 0);
}

#[test]
fn a_buffer_ends_where_offsets_do() {
    let mut builder = CasmBuilder::default();
    let buffer = builder.add_var(plus(fp(-3), 32767));
    let value = builder.add_var(CellExpression::Deref(fp(-4)));
    // The last place can be read, but no place after it can be addressed.
    assert!(!builder.can_buffer_write_and_inc(buffer, value));
    assert!(builder.can_get_ref_and_inc(buffer));
    let last = builder.get_ref_and_inc(buffer);
    assert_eq!(builder.get_value(last, false), CellExpression::DoubleDeref(fp(-3), 32767));
    assert_eq!(builder.get_value(buffer, false), plus(fp(-3), 32768));
    assert!(!builder.can_get_ref_and_inc(buffer));
    assert!(!builder.can_buffer_write_and_inc(buffer, buffer));
}

#[test]
fn trivial_values_need_no_tempvar() {
    let mut builder = CasmBuilder::default();
    let cases = [
        (CellOperator::Add, 0),
        (CellOperator::Sub, 0),
        (CellOperator::Mul, 1),
        (CellOperator::Div, 1),
    ];
    for (op, neutral) in cases {
        let var = builder.add_var(CellExpression::BinOp {
            op,
            a: fp(2),
            b: DerefOrImmediate::Immediate(big(neutral)),
        });
        let cell = builder.maybe_add_tempvar(var);
        assert_eq!(builder.get_value(cell, false), CellExpression::Deref(fp(2)));
        assert_ne!(cell, var);
    }
    let var = builder.add_var(CellExpression::Deref(ap(4)));
    let cell = builder.maybe_add_tempvar(var);
    assert_eq!(builder.get_value(cell, false), CellExpression::Deref(ap(4)));
    assert_eq!(builder.steps(), 0);
}

#[test]
fn other_values_need_a_tempvar() {
    let mut builder = CasmBuilder::default();
    let one_more = builder.add_var(plus(fp(2), 1));
    let same = builder.add_var(CellExpression::BinOp {
        op: CellOperator::Sub,
        a: fp(2),
        b: DerefOrImmediate::Immediate(big(1)),
    });
    let constant = builder.add_var(imm(0));
    let a = builder.maybe_add_tempvar(one_more);
    let b = builder.maybe_add_tempvar(same);
    let c = builder.maybe_add_tempvar(constant);
    assert_eq!(builder.get_value(a, false), CellExpression::Deref(ap(0)));
    assert_eq!(builder.get_value(b, false), CellExpression::Deref(ap(1)));
    assert_eq!(builder.get_value(c, false), CellExpression::Deref(ap(2)));
    assert_eq!(builder.curr_ap_change(), 3);
    assert_eq!(
        fallthrough(builder),
        vec![
            assert_eq_inst(
                ap(0),
                bin_op(Operation::Add, fp(2), DerefOrImmediate::Immediate(big(1))),
                true
            ),
            assert_eq_inst(
                fp(2),
                bin_op(Operation::Add, ap(0), DerefOrImmediate::Immediate(big(1))),
                true
            ),
            assert_eq_inst(ap(0), ResOperand::Immediate(big(0)), true),
        ]
    );
}

#[test]
fn hints_go_before_the_next_instruction() {
    let mut builder = CasmBuilder::default();
    let a = builder.add_var(CellExpression::Deref(fp(1)));
    let three = builder.add_var(imm(3));
    let sum = builder.bin_op(CellOperator::Add, a, three);
    let there = builder.double_deref(a, 2);
    let out = builder.alloc_var(false);
    builder.add_ap(1);
    builder.add_hint(
        |inputs: [ResOperand; 4], outputs: [CellRef; 1]| Hint {
            name: "First".to_owned(),
            inputs: inputs.into_iter().collect(),
            outputs: outputs.into_iter().collect(),
        },
        [a, three, sum, there],
        [out],
    );
    builder.add_hint(
        |_: [ResOperand; 0], _: [CellRef; 0]| Hint {
            name: "Second".to_owned(),
            inputs: vec![],
            outputs: vec![],
        },
        [],
        [],
    );
    assert!(!builder.can_build(&["Fallthrough"]));
    builder.assert_vars_eq(out, three);
    builder.assert_vars_eq(out, three);
    let instructions = fallthrough(builder);
    assert!(instructions[0].hints.is_empty());
    assert_eq!(
        instructions[1].hints,
        vec![
            Hint {
                name: "First".to_owned(),
                inputs: vec![
                    ResOperand::Deref(fp(1)),
                    ResOperand::Immediate(big(3)),
                    bin_op(Operation::Add, fp(1), DerefOrImmediate::Immediate(big(3))),
                    ResOperand::DoubleDeref(fp(1), 2),
                ],
                outputs: vec![ap(-1)],
            },
            Hint { name: "Second".to_owned(), inputs: vec![], outputs: vec![] },
        ]
    );
    assert!(instructions[2].hints.is_empty());
}

#[test]
fn hints_are_made_by_name() {
    let mut builder = CasmBuilder::default();
    let a = builder.add_var(CellExpression::Deref(fp(1)));
    let three = builder.add_var(imm(3));
    let product = builder.bin_op(CellOperator::Mul, a, three);
    let out = builder.alloc_var(false);
    builder.hint("Compute", [three, product], [out, a]);
    builder.add_hint(
        |[input]: [ResOperand; 1], _: [CellRef; 0]| Hint::new("Print", [input], []),
        [a],
        [],
    );
    builder.assert_vars_eq(out, three);
    assert_eq!(
        fallthrough(builder)[0].hints,
        vec![
            Hint {
                name: "Compute".to_owned(),
                inputs: vec![
                    ResOperand::Immediate(big(3)),
                    bin_op(Operation::Mul, fp(1), DerefOrImmediate::Immediate(big(3))),
                ],
                outputs: vec![ap(0), fp(1)],
            },
            Hint {
                name: "Print".to_owned(),
                inputs: vec![ResOperand::Deref(fp(1))],
                outputs: vec![],
            },
        ]
    );
}

#[test]
fn nothing_is_added_until_a_label() {
    let ends: [fn(&mut CasmBuilder); 3] = [
        |builder| builder.jump("Out".to_owned()),
        |builder| builder.ret(),
        |builder| builder.fail(),
    ];
    for end in ends {
        let mut builder = CasmBuilder::default();
        let cell = builder.add_var(CellExpression::Deref(fp(1)));
        let buffer = builder.add_var(CellExpression::Deref(fp(2)));
        builder.jump_nz(cell, "Next".to_owned());
        assert!(builder.can_emit());
        end(&mut builder);
        let cell = builder.add_var(CellExpression::Deref(fp(1)));
        let moved = builder.add_var(plus(fp(1), 1));
        assert!(!builder.can_emit());
        assert!(!builder.can_add_ap(1));
        assert!(!builder.can_assert_vars_eq(cell, cell));
        assert!(!builder.can_buffer_write_and_inc(moved, cell));
        assert!(!builder.can_maybe_add_tempvar(moved));
        assert!(builder.can_maybe_add_tempvar(cell));
        assert!(!builder.can_jump("Out"));
        assert!(!builder.can_jump_nz(cell, "Out"));
        assert!(!builder.can_call("function"));
        assert!(!builder.can_ret());
        builder.label("Next".to_owned());
        assert!(builder.can_emit());
        assert!(builder.can_add_ap(1));
        assert!(builder.has_value(buffer, false));
    }
}

#[test]
fn hints_read_no_differences_and_write_cells() {
    let mut builder = CasmBuilder::default();
    let a = builder.add_var(CellExpression::Deref(fp(1)));
    let three = builder.add_var(imm(3));
    let difference = builder.bin_op(CellOperator::Sub, a, three);
    let quotient = builder.bin_op(CellOperator::Div, a, three);
    let product = builder.bin_op(CellOperator::Mul, a, three);
    assert!(builder.can_add_hint(&[a, three, product], &[a]));
    assert!(!builder.can_add_hint(&[difference], &[]));
    assert!(!builder.can_add_hint(&[a, quotient], &[]));
    assert!(!builder.can_add_hint(&[], &[three]));
    assert!(!builder.can_add_hint(&[], &[a, product]));
}

#[test]
fn a_failure_cannot_hold() {
    let mut builder = CasmBuilder::default();
    builder.fail();
    assert!(!builder.can_emit());
    assert_eq!(
        builder.build([]).instructions,
        vec![assert_eq_inst(
            fp(-1),
            bin_op(Operation::Add, fp(-1), DerefOrImmediate::Immediate(big(1))),
            false
        )]
    );
}

#[test]
fn a_return_ends_the_code() {
    let mut builder = CasmBuilder::default();
    builder.alloc_var(false);
    assert!(!builder.can_ret());
    builder.add_ap(1);
    assert!(builder.can_ret());
    builder.ret();
    assert!(!builder.can_emit());
    let instructions = builder.build([]).instructions;
    assert_eq!(instructions[1], inst(InstructionBody::Ret(RetInstruction {}), false));
}

#[test]
fn steps_can_be_reset() {
    let mut builder = CasmBuilder::default();
    builder.add_ap(1);
    builder.add_ap(1);
    assert_eq!(builder.steps(), 2);
    builder.reset_steps();
    assert_eq!(builder.steps(), 0);
    builder.add_ap(1);
    assert_eq!(builder.steps(), 1);
    assert_eq!(builder.curr_ap_change(), 3);
}

#[test]
fn rescoping_carries_values_over() {
    let mut builder = CasmBuilder::default();
    let a = builder.alloc_var(false);
    let b = builder.add_var(CellExpression::Deref(fp(-3)));
    let c = builder.add_var(imm(9));
    assert!(!builder.can_rescope(&[(a, b)]));
    builder.assert_vars_eq(a, c);
    builder.add_ap(2);
    assert!(builder.can_rescope(&[(a, b), (b, a)]));
    builder.rescope([(a, b), (b, a)]);
    assert_eq!(builder.curr_ap_change(), 0);
    assert_eq!(builder.steps(), 2);
    assert_eq!(builder.get_value(a, false), CellExpression::Deref(fp(-3)));
    assert_eq!(builder.get_value(b, false), CellExpression::Deref(ap(-3)));
    assert!(!builder.has_value(c, false));
    let d = builder.alloc_var(false);
    assert_eq!(builder.get_value(d, false), CellExpression::Deref(ap(0)));
}

#[test]
fn rescoping_a_variable_twice_takes_the_last_value() {
    let mut builder = CasmBuilder::default();
    let a = builder.add_var(imm(1));
    let b = builder.add_var(imm(2));
    builder.rescope([(a, a), (a, b)]);
    assert_eq!(builder.get_value(a, false), imm(2));
    assert!(!builder.has_value(b, false));
}

#[test]
fn variables_that_were_dropped_do_not_come_back() {
    let mut builder = CasmBuilder::default();
    let mut made = vec![builder.add_var(CellExpression::Deref(fp(1)))];
    builder.rescope([]);
    made.push(builder.alloc_var(true));
    builder.add_ap(1);
    builder.jump_nz(made[1], "End".to_owned());
    builder.call("function".to_owned());
    made.push(builder.add_var(imm(1)));
    builder.jump("Out".to_owned());
    made.push(builder.add_var(imm(2)));
    builder.label("End".to_owned());
    made.push(builder.duplicate_var(made[1]));
    for (i, var) in made.iter().enumerate() {
        assert_eq!(var.index(), i);
    }
    assert!(!builder.has_value(made[2], false));
}

#[test]
fn variables_of_another_builder_can_be_brought_in() {
    let mut other = CasmBuilder::default();
    other.add_var(imm(1));
    let foreign = other.add_var(imm(2));
    let mut builder = CasmBuilder::default();
    let a = builder.add_var(CellExpression::Deref(fp(1)));
    builder.rescope([(foreign, a)]);
    assert_eq!(builder.get_value(foreign, false), CellExpression::Deref(fp(1)));
    builder.jump_nz(foreign, "End".to_owned());
    builder.label("End".to_owned());
    assert_eq!(
        fallthrough(builder),
        vec![inst(
            InstructionBody::Jnz(JnzInstruction {
                condition: fp(1),
                jump_offset: DerefOrImmediate::Immediate(big(2)),
            }),
            false
        )]
    );
}

#[test]
fn unknown_variables_are_told_apart() {
    let mut other = CasmBuilder::default();
    let unknown: Var = other.add_var(imm(1));
    let builder = CasmBuilder::default();
    assert!(!builder.has_value(unknown, false));
    assert!(!builder.can_duplicate_var(unknown));
    assert!(!builder.can_assert_vars_eq(unknown, unknown));
    assert!(!builder.can_maybe_add_tempvar(unknown));
    assert!(!builder.can_jump_nz(unknown, "Somewhere"));
}

#[test]
fn a_call_splits_the_variables() {
    let mut builder = CasmBuilder::default();
    let temp = builder.alloc_var(false);
    let five = builder.add_var(imm(5));
    let local = builder.add_var(CellExpression::Deref(fp(3)));
    let temp_there = builder.double_deref(temp, 6);
    let local_there = builder.double_deref(local, 6);
    let temp_more = builder.bin_op(CellOperator::Add, temp, five);
    let local_more = builder.bin_op(CellOperator::Add, local, five);
    let temps = builder.bin_op(CellOperator::Mul, temp, temp);
    let locals = builder.bin_op(CellOperator::Mul, local, local);
    let mixed = builder.bin_op(CellOperator::Mul, temp, local);
    assert!(!builder.can_call("function"));
    builder.assert_vars_eq(temp, five);
    assert!(builder.can_call("function"));
    builder.call("function".to_owned());
    // The caller keeps what does not move with AP.
    for kept in [five, local, local_there, local_more, locals] {
        assert!(builder.has_value(kept, true));
    }
    for dropped in [temp, temp_there, temp_more, temps, mixed] {
        assert!(!builder.has_value(dropped, false));
    }
    assert_eq!(builder.get_value(local, false), CellExpression::Deref(fp(3)));
    assert_eq!(builder.curr_ap_change(), 0);
    assert_eq!(builder.steps(), 2);
    builder.ret();
    // The function sees the cells before the call, two further away.
    builder.label("function".to_owned());
    assert_eq!(builder.steps(), 0);
    assert_eq!(builder.get_value(temp, false), CellExpression::Deref(fp(-3)));
    assert_eq!(builder.get_value(five, false), imm(5));
    assert_eq!(builder.get_value(temp_there, false), CellExpression::DoubleDeref(fp(-3), 6));
    assert_eq!(builder.get_value(temp_more, false), plus(fp(-3), 5));
    assert_eq!(
        builder.get_value(temps, false),
        CellExpression::BinOp {
            op: CellOperator::Mul,
            a: fp(-3),
            b: DerefOrImmediate::Deref(fp(-3)),
        }
    );
    // An FP based cell with a constant is passed as it is written.
    assert_eq!(builder.get_value(local_more, false), plus(fp(3), 5));
    for hidden in [local, local_there, locals, mixed] {
        assert!(!builder.has_value(hidden, false));
    }
    builder.ret();
    let instructions = builder.build([]).instructions;
    assert_eq!(
        instructions[1],
        inst(
            InstructionBody::Call(CallInstruction {
                target: DerefOrImmediate::Immediate(big(3)),
                relative: true,
            }),
            false
        )
    );
}

#[test]
fn a_call_needs_cells_within_reach() {
    let mut builder = CasmBuilder::default();
    builder.add_var(CellExpression::Deref(ap(-32767)));
    assert!(!builder.can_call("function"));
    let mut builder = CasmBuilder::default();
    builder.add_var(CellExpression::Deref(ap(-32766)));
    assert!(builder.can_call("function"));
}

#[test]
fn conditional_jumps_read_cells() {
    let mut builder = CasmBuilder::default();
    let a = builder.alloc_var(false);
    let three = builder.add_var(imm(3));
    assert!(!builder.can_jump_nz(three, "End"));
    builder.jump_nz(a, "End".to_owned());
    assert_eq!(builder.curr_ap_change(), 1);
    builder.label("End".to_owned());
    assert_eq!(
        fallthrough(builder),
        vec![inst(
            InstructionBody::Jnz(JnzInstruction {
                condition: ap(0),
                jump_offset: DerefOrImmediate::Immediate(big(2)),
            }),
            true
        )]
    );
}

#[test]
fn jumps_end_the_reachable_code() {
    let mut builder = CasmBuilder::default();
    let a = builder.add_var(imm(1));
    builder.jump("End".to_owned());
    assert!(!builder.can_emit());
    assert!(!builder.has_value(a, false));
    assert!(!builder.can_label("Elsewhere"));
    assert!(builder.can_label("End"));
    builder.label("End".to_owned());
    assert!(builder.can_emit());
    assert!(builder.has_value(a, false));
    assert_eq!(builder.steps(), 1);
    assert_eq!(
        fallthrough(builder),
        vec![inst(
            InstructionBody::Jump(JumpInstruction {
                target: DerefOrImmediate::Immediate(big(2)),
                relative: true,
            }),
            false
        )]
    );
}
