//! Operands, expressions, instructions and the ordered map.

use cairo_lang_casm::bigint::BigInt;
use cairo_lang_casm::cell_expression::{CellExpression, CellOperator};
use cairo_lang_casm::instructions::{
    AddApInstruction, AssertEqInstruction, CallInstruction, InstructionBody, JnzInstruction,
    JumpInstruction, RetInstruction,
};
use cairo_lang_casm::operand::{
    BinOpOperand, CellRef, DerefOrImmediate, Operation, Register, ResOperand,
};
use cairo_lang_casm::ordered_map::{Key, OrderedMap};

fn ap(offset: i16) -> CellRef {
    CellRef { register: Register::AP, offset }
}

fn fp(offset: i16) -> CellRef {
    CellRef { register: Register::FP, offset }
}

fn imm(value: i128) -> DerefOrImmediate {
    DerefOrImmediate::Immediate(BigInt::from_i128(value))
}

#[test]
fn cells_follow_ap() {
    assert_eq!(ap(5).apply_known_ap_change(7), Some(ap(-2)));
    assert_eq!(fp(5).apply_known_ap_change(7), Some(fp(5)));
    assert_eq!(fp(5).apply_known_ap_change(usize::MAX), Some(fp(5)));
    assert_eq!(ap(-1).apply_known_ap_change(32767), Some(ap(-32768)));
    assert_eq!(ap(-2).apply_known_ap_change(32767), None);
    assert_eq!(ap(32767).apply_known_ap_change(32768), None);
}

#[test]
fn operands_follow_ap() {
    let cell = DerefOrImmediate::Deref(ap(1));
    assert_eq!(cell.clone().apply_known_ap_change(3), Some(DerefOrImmediate::Deref(ap(-2))));
    assert_eq!(cell.apply_known_ap_change(100000), None);
    assert_eq!(imm(9).apply_known_ap_change(100000), Some(imm(9)));
}

#[test]
fn expressions_follow_ap() {
    let expression = CellExpression::BinOp {
        op: CellOperator::Sub,
        a: ap(3),
        b: DerefOrImmediate::Deref(fp(2)),
    };
    assert_eq!(
        expression.clone().apply_known_ap_change(2),
        Some(CellExpression::BinOp {
            op: CellOperator::Sub,
            a: ap(1),
            b: DerefOrImmediate::Deref(fp(2)),
        })
    );
    assert_eq!(
        CellExpression::DoubleDeref(ap(0), 5).unchecked_apply_known_ap_change(1),
        CellExpression::DoubleDeref(ap(-1), 5)
    );
    assert_eq!(expression.apply_known_ap_change(40000), None);
    let constant = CellExpression::Immediate(BigInt::one());
    assert_eq!(constant.clone().apply_known_ap_change(usize::MAX), Some(constant));
}

#[test]
fn sums_and_products_are_right_hand_sides() {
    let with = |op| CellExpression::BinOp { op, a: ap(1), b: imm(4) };
    let operand = |op| Some(ResOperand::BinOp(BinOpOperand { op, a: ap(1), b: imm(4) }));
    assert_eq!(with(CellOperator::Add).to_res_operand(), operand(Operation::Add));
    assert_eq!(with(CellOperator::Mul).to_res_operand(), operand(Operation::Mul));
    assert_eq!(with(CellOperator::Sub).to_res_operand(), None);
    assert_eq!(with(CellOperator::Div).to_res_operand(), None);
    assert_eq!(
        CellExpression::Deref(fp(0)).to_res_operand(),
        Some(ResOperand::Deref(fp(0)))
    );
    assert_eq!(
        CellExpression::DoubleDeref(fp(0), -1).to_res_operand(),
        Some(ResOperand::DoubleDeref(fp(0), -1))
    );
    assert_eq!(
        CellExpression::Immediate(BigInt::from_i128(6)).to_res_operand(),
        Some(ResOperand::Immediate(BigInt::from_i128(6)))
    );
}

#[test]
fn expressions_are_told_apart() {
    let all = [
        CellExpression::Deref(ap(1)),
        CellExpression::Deref(fp(1)),
        CellExpression::Deref(ap(2)),
        CellExpression::DoubleDeref(ap(1), 0),
        CellExpression::DoubleDeref(ap(1), 1),
        CellExpression::Immediate(BigInt::from_i128(1)),
        CellExpression::Immediate(BigInt::from_i128(-1)),
        CellExpression::BinOp { op: CellOperator::Add, a: ap(1), b: imm(1) },
        CellExpression::BinOp { op: CellOperator::Add, a: ap(1), b: imm(2) },
        CellExpression::BinOp { op: CellOperator::Mul, a: ap(1), b: imm(1) },
        CellExpression::BinOp { op: CellOperator::Add, a: fp(1), b: imm(1) },
        CellExpression::BinOp {
            op: CellOperator::Add,
            a: ap(1),
            b: DerefOrImmediate::Deref(ap(1)),
        },
    ];
    for (i, a) in all.iter().enumerate() {
        for (j, b) in all.iter().enumerate() {
            assert_eq!(a.equals(b), i == j);
        }
        assert!(a.clone().equals(a));
    }
}

#[test]
fn instructions_with_an_immediate_take_two_cells() {
    let size = |body: InstructionBody| body.op_size();
    let deref = DerefOrImmediate::Deref(ap(0));
    assert_eq!(size(InstructionBody::Ret(RetInstruction {})), 1);
    assert_eq!(
        size(InstructionBody::AddAp(AddApInstruction {
            operand: ResOperand::Immediate(BigInt::one())
        })),
        2
    );
    assert_eq!(
        size(InstructionBody::AddAp(AddApInstruction { operand: ResOperand::Deref(ap(0)) })),
        1
    );
    assert_eq!(
        size(InstructionBody::AssertEq(AssertEqInstruction {
            a: ap(0),
            b: ResOperand::DoubleDeref(ap(0), 3)
        })),
        1
    );
    assert_eq!(
        size(InstructionBody::AssertEq(AssertEqInstruction {
            a: ap(0),
            b: ResOperand::BinOp(BinOpOperand { op: Operation::Add, a: ap(0), b: imm(1) })
        })),
        2
    );
    assert_eq!(
        size(InstructionBody::AssertEq(AssertEqInstruction {
            a: ap(0),
            b: ResOperand::BinOp(BinOpOperand {
                op: Operation::Add,
                a: ap(0),
                b: deref.clone()
            })
        })),
        1
    );
    assert_eq!(
        size(InstructionBody::Call(CallInstruction { target: imm(0), relative: true })),
        2
    );
    assert_eq!(
        size(InstructionBody::Jump(JumpInstruction { target: deref.clone(), relative: true })),
        1
    );
    assert_eq!(
        size(InstructionBody::Jnz(JnzInstruction { jump_offset: imm(0), condition: ap(0) })),
        2
    );
    assert_eq!(
        size(InstructionBody::Jnz(JnzInstruction { jump_offset: deref, condition: ap(0) })),
        1
    );
}

#[test]
fn targets_are_moved() {
    let jump = InstructionBody::Jump(JumpInstruction { target: imm(2), relative: true });
    assert_eq!(
        jump.move_target(-5),
        InstructionBody::Jump(JumpInstruction { target: imm(-3), relative: true })
    );
    let call = InstructionBody::Call(CallInstruction { target: imm(0), relative: true });
    assert_eq!(
        call.move_target(7),
        InstructionBody::Call(CallInstruction { target: imm(7), relative: true })
    );
    let jnz = InstructionBody::Jnz(JnzInstruction { jump_offset: imm(1), condition: fp(3) });
    assert_eq!(
        jnz.move_target(1),
        InstructionBody::Jnz(JnzInstruction { jump_offset: imm(2), condition: fp(3) })
    );
    let ret = InstructionBody::Ret(RetInstruction {});
    assert_eq!(ret.move_target(1), InstructionBody::Ret(RetInstruction {}));
}

#[test]
fn maps_keep_the_order_of_their_keys() {
    let mut map: OrderedMap<String, ()> = OrderedMap::new();
    for key in ["b", "a", "c", "a"] {
        map.insert(key.to_owned(), ());
    }
    assert_eq!(map.len(), 3);
    let keys: Vec<String> = (0..map.len()).map(|i| map.entry(i).0.clone()).collect();
    assert_eq!(keys, vec!["b", "a", "c"]);
    assert!(map.contains_key(&"a".to_owned()));
    assert!(!map.contains_key(&"d".to_owned()));
    assert_eq!(map.remove(&"b".to_owned()), Some(()));
    assert_eq!(map.remove(&"b".to_owned()), None);
    assert_eq!(map.get(&"c".to_owned()), Some(&()));
    assert_eq!(map.entry(0).0, "a");
    let mut kept: OrderedMap<String, ()> = OrderedMap::new();
    kept.insert("c".to_owned(), ());
    kept.insert("x".to_owned(), ());
    map.retain_keys_of(&kept);
    assert_eq!(map.len(), 1);
    assert_eq!(map.entry(0).0, "c");
    assert!("c".to_owned().same(map.entry(0).0));
}
