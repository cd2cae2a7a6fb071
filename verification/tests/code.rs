//! Labels, branches and the code that is built.

use cairo_lang_casm::bigint::BigInt;
use cairo_lang_casm::builder::CasmBuilder;
use cairo_lang_casm::cell_expression::CellExpression;
use cairo_lang_casm::instructions::{Instruction, InstructionBody};
use cairo_lang_casm::operand::{CellRef, DerefOrImmediate, Register};

fn cell(register: Register, offset: i16) -> CellExpression {
    CellExpression::Deref(CellRef { register, offset })
}

fn imm(value: i128) -> CellExpression {
    CellExpression::Immediate(BigInt::from_i128(value))
}

/// How far a jump or a call goes.
fn distance(instruction: &Instruction) -> i16 {
    let target = match &instruction.body {
        InstructionBody::Call(inst) => &inst.target,
        InstructionBody::Jnz(inst) => &inst.jump_offset,
        InstructionBody::Jump(inst) => &inst.target,
        _ => panic!("not a jump"),
    };
    match target {
        DerefOrImmediate::Immediate(value) => value.to_i16().unwrap(),
        DerefOrImmediate::Deref(_) => panic!("not a constant"),
    }
}

/// The code offset of each instruction.
fn offsets(instructions: &[Instruction]) -> Vec<usize> {
    let mut offset = 0;
    let mut res = vec![];
    for instruction in instructions {
        res.push(offset);
        offset += instruction.body.op_size();
    }
    res
}

#[test]
fn jumps_go_forward_and_back() {
    let mut builder = CasmBuilder::default();
    let condition = builder.add_var(cell(Register::FP, -3));
    let three = builder.add_var(imm(3));
    builder.label("Loop".to_owned());
    builder.assert_vars_eq(condition, three); // 2 cells, at 0.
    builder.jump_nz(condition, "End".to_owned()); // 2 cells, at 2.
    builder.assert_vars_eq(condition, condition); // 1 cell, at 4.
    builder.label("End".to_owned()); // At 5.
    builder.jump("Out".to_owned()); // 2 cells, at 5.
    let result = builder.build(["Out"]);
    assert_eq!(offsets(&result.instructions), vec![0, 2, 4, 5]);
    assert_eq!(distance(&result.instructions[1]), 3);
    assert_eq!(distance(&result.instructions[3]), 0);
    assert_eq!(result.branches[0].1, vec![3]);
    assert_eq!(result.branches[0].0.steps, 4);
}

#[test]
fn loops_go_back() {
    let mut builder = CasmBuilder::default();
    builder.jump("Start".to_owned()); // 2 cells, at 0.
    builder.label("Start".to_owned()); // At 2.
    builder.reset_steps();
    let condition = builder.add_var(cell(Register::FP, -3));
    builder.assert_vars_eq(condition, condition); // 1 cell, at 2.
    builder.reset_steps();
    builder.jump_nz(condition, "Start".to_owned()); // 2 cells, at 3.
    let result = builder.build(["Fallthrough"]);
    assert_eq!(distance(&result.instructions[0]), 2);
    assert_eq!(distance(&result.instructions[2]), -1);
}

#[test]
fn branches_have_states_and_relocations() {
    let mut builder = CasmBuilder::default();
    let condition = builder.add_var(cell(Register::FP, -3));
    builder.jump_nz(condition, "Other".to_owned());
    let a = builder.alloc_var(false);
    let one = builder.add_var(imm(1));
    builder.assert_vars_eq(a, one);
    builder.jump_nz(condition, "Target".to_owned());
    builder.jump_nz(condition, "Target".to_owned());
    let result = builder.build(["Other", "Target", "Fallthrough"]);
    let [(other, other_places), (target, target_places), (end, end_places)] = &result.branches;
    assert_eq!(other_places, &vec![0]);
    assert_eq!(target_places, &vec![2, 3]);
    assert!(end_places.is_empty());
    assert_eq!((other.ap_change, other.steps), (0, 1));
    assert_eq!((target.ap_change, target.steps), (1, 4));
    assert_eq!((end.ap_change, end.steps), (1, 4));
    assert_eq!(target.get_adjusted(a), cell(Register::AP, -1));
    assert_eq!(
        target.get_adjusted_as_cell_ref(a),
        CellRef { register: Register::AP, offset: -1 }
    );
    assert_eq!(other.get_adjusted(condition), cell(Register::FP, -3));
    // A jump that leaves the code is left for the relocation.
    for place in [0, 2, 3] {
        assert_eq!(distance(&result.instructions[place]), 0);
    }
}

#[test]
fn branches_are_all_named_and_once() {
    let mut builder = CasmBuilder::default();
    let condition = builder.add_var(cell(Register::FP, -3));
    builder.jump_nz(condition, "Other".to_owned());
    assert!(builder.can_build(&["Other", "Fallthrough"]));
    assert!(builder.can_build(&["Fallthrough", "Other"]));
    assert!(!builder.can_build(&["Fallthrough"]));
    assert!(!builder.can_build(&["Other"]));
    assert!(!builder.can_build(&["Other", "Other", "Fallthrough"]));
    assert!(!builder.can_build(&["Other", "Fallthrough", "Another"]));
}

#[test]
fn code_that_does_not_fall_through_has_no_such_branch() {
    let mut builder = CasmBuilder::default();
    builder.jump("Other".to_owned());
    assert!(builder.can_build(&["Other"]));
    assert!(!builder.can_build(&["Other", "Fallthrough"]));
}

#[test]
fn branches_have_passed_their_variables() {
    let mut builder = CasmBuilder::default();
    builder.alloc_var(false);
    builder.alloc_var(false);
    assert!(!builder.can_build(&["Fallthrough"]));
    builder.add_ap(1);
    assert!(!builder.can_build(&["Fallthrough"]));
    builder.add_ap(1);
    assert!(builder.can_build(&["Fallthrough"]));
}

#[test]
fn labels_of_the_code_are_no_branches() {
    let mut builder = CasmBuilder::default();
    builder.jump("End".to_owned());
    assert!(builder.can_build(&["End"]));
    builder.label("End".to_owned());
    assert!(!builder.can_build(&["End"]));
    assert!(builder.can_build(&["Fallthrough"]));
}

#[test]
fn merged_branches_keep_what_both_know() {
    let mut builder = CasmBuilder::default();
    let condition = builder.add_var(cell(Register::FP, -3));
    let shared = builder.add_var(imm(1));
    builder.jump_nz(condition, "End".to_owned());
    let later = builder.add_var(imm(2));
    builder.assert_vars_eq(condition, later);
    builder.label("End".to_owned());
    assert!(builder.has_value(condition, false));
    assert!(builder.has_value(shared, false));
    assert!(!builder.has_value(later, false));
    // The longer way counts.
    assert_eq!(builder.steps(), 2);
}

#[test]
fn merged_branches_agree_on_ap() {
    let mut builder = CasmBuilder::default();
    let condition = builder.add_var(cell(Register::FP, -3));
    builder.jump_nz(condition, "End".to_owned());
    builder.add_ap(1);
    assert!(!builder.can_label("End"));
    assert!(!builder.can_jump("End"));
    assert!(builder.can_jump("Elsewhere"));
}

#[test]
fn merged_branches_agree_on_allocations() {
    let mut builder = CasmBuilder::default();
    let condition = builder.add_var(cell(Register::FP, -3));
    builder.jump_nz(condition, "End".to_owned());
    builder.alloc_var(true);
    assert!(!builder.can_label("End"));
}

#[test]
fn merged_branches_agree_on_values() {
    let mut builder = CasmBuilder::default();
    let condition = builder.add_var(cell(Register::FP, -3));
    let buffer = builder.add_var(cell(Register::FP, -4));
    builder.jump_nz(condition, "End".to_owned());
    builder.get_ref_and_inc(buffer);
    assert!(!builder.can_label("End"));
    assert!(!builder.can_jump("End"));
    assert!(!builder.can_jump_nz(condition, "End"));
}

#[test]
fn labels_that_were_read_take_no_longer_ways() {
    let mut builder = CasmBuilder::default();
    let condition = builder.add_var(cell(Register::FP, -3));
    builder.label("Start".to_owned());
    builder.assert_vars_eq(condition, condition);
    // One step more than the state that was read.
    assert!(!builder.can_jump_nz(condition, "Start"));
    assert!(builder.can_jump_nz(condition, "Elsewhere"));
}

#[test]
fn labels_that_were_read_can_still_forget_variables() {
    let mut builder = CasmBuilder::default();
    let condition = builder.add_var(cell(Register::FP, -3));
    let gone = builder.add_var(imm(1));
    builder.add_ap(0);
    builder.add_ap(0);
    builder.label("Start".to_owned());
    builder.rescope([(condition, condition)]);
    builder.reset_steps();
    builder.jump_nz(condition, "Start".to_owned());
    builder.jump("Other".to_owned());
    builder.label("Start".to_owned());
    assert!(builder.has_value(condition, false));
    assert!(!builder.has_value(gone, false));
    assert_eq!(builder.steps(), 2);
}

#[test]
fn a_label_that_is_added_twice_stands_where_it_was_added_last() {
    let mut builder = CasmBuilder::default();
    let condition = builder.add_var(cell(Register::FP, -3));
    builder.add_ap(0); // 2 cells, at 0.
    builder.add_ap(0); // 2 cells, at 2.
    builder.label("Here".to_owned()); // At 4.
    builder.reset_steps();
    builder.jump_nz(condition, "Here".to_owned()); // 2 cells, at 4.
    builder.label("Here".to_owned()); // At 6.
    let result = builder.build(["Fallthrough"]);
    assert_eq!(distance(&result.instructions[2]), 2);
}

#[test]
fn functions_are_called_by_distance() {
    let mut builder = CasmBuilder::default();
    builder.call("function".to_owned()); // 2 cells, at 0.
    builder.jump("Out".to_owned()); // 2 cells, at 2.
    builder.label("function".to_owned()); // At 4.
    builder.ret();
    let result = builder.build(["Out"]);
    assert_eq!(distance(&result.instructions[0]), 4);
    assert_eq!(distance(&result.instructions[1]), 0);
    assert_eq!(result.branches[0].1, vec![1]);
}

#[test]
fn functions_that_are_called_twice_see_what_both_calls_pass() {
    let mut builder = CasmBuilder::default();
    let five = builder.add_var(imm(5));
    let argument = builder.alloc_var(false);
    builder.assert_vars_eq(argument, five);
    builder.call("function".to_owned());
    let six = builder.add_var(imm(6));
    builder.call("function".to_owned());
    builder.jump("Out".to_owned());
    builder.label("function".to_owned());
    assert!(builder.has_value(five, false));
    assert!(!builder.has_value(argument, false));
    assert!(!builder.has_value(six, false));
}

#[test]
fn the_end_takes_the_place_of_a_branch_named_fallthrough() {
    let mut builder = CasmBuilder::default();
    let condition = builder.add_var(cell(Register::FP, -3));
    builder.jump_nz(condition, "Fallthrough".to_owned());
    builder.add_ap(3);
    let result = builder.build(["Fallthrough"]);
    assert_eq!(result.branches[0].0.ap_change, 3);
    assert_eq!(result.branches[0].1, vec![0]);
}

#[test]
fn states_can_be_copied() {
    let mut builder = CasmBuilder::default();
    let a = builder.add_var(imm(1));
    let b = builder.add_var(cell(Register::AP, 2));
    builder.add_ap(3);
    let [(state, _)] = builder.build(["Fallthrough"]).branches;
    let copy = state.clone();
    assert_eq!(copy, state);
    assert_eq!(copy.get_adjusted(a), imm(1));
    assert_eq!(copy.get_adjusted(b), cell(Register::AP, -1));
    assert!(copy.validate_finality());
}
