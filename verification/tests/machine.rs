//! Built code on a small machine.

use std::collections::HashMap;

use cairo_lang_casm::bigint::BigInt;
use cairo_lang_casm::builder::{CasmBuilder, State, Var};
use cairo_lang_casm::cell_expression::{CellExpression, CellOperator};
use cairo_lang_casm::instructions::{Instruction, InstructionBody};
use cairo_lang_casm::operand::{CellRef, DerefOrImmediate, Operation, Register, ResOperand};

const MODULUS: i128 = 1_000_003;

fn imm(value: &BigInt) -> i128 {
    let mut res = 0;
    for digit in value.to_u32_digits().into_iter().rev() {
        res = (res * (1 << 32) + digit as i128) % MODULUS;
    }
    if value.is_negative() { -res } else { res }
}

/// A number that gives 1 when multiplied by `value`.
fn inverse(value: i128) -> i128 {
    let (mut res, mut base, mut exponent) = (1, value.rem_euclid(MODULUS), MODULUS - 2);
    while exponent > 0 {
        if exponent % 2 == 1 {
            res = res * base % MODULUS;
        }
        base = base * base % MODULUS;
        exponent /= 2;
    }
    res
}

/// A machine. Cells get their values by assertions; a cell that has one keeps it.
struct Machine {
    memory: HashMap<i128, i128>,
    ap: i128,
    fp: i128,
    steps: usize,
    /// Whether all the assertions held so far.
    holds: bool,
}

impl Machine {
    /// A machine in a function with the arguments `args`: `[fp - 3]`, `[fp - 4]` and so on.
    fn new(args: &[i128]) -> Self {
        let mut memory = HashMap::new();
        for (i, arg) in args.iter().enumerate() {
            memory.insert(1000 - 3 - i as i128, *arg);
        }
        memory.insert(999, 7);
        Machine { memory, ap: 1000, fp: 1000, steps: 0, holds: true }
    }

    fn address(&self, cell: CellRef) -> i128 {
        let register = match cell.register {
            Register::AP => self.ap,
            Register::FP => self.fp,
        };
        register + cell.offset as i128
    }

    fn cell(&self, cell: CellRef) -> Option<i128> {
        self.memory.get(&self.address(cell)).copied()
    }

    fn cell_or_imm(&self, operand: &DerefOrImmediate) -> i128 {
        match operand {
            DerefOrImmediate::Deref(cell) => self.cell(*cell).unwrap(),
            DerefOrImmediate::Immediate(value) => imm(value),
        }
    }

    fn value(&self, expression: &CellExpression) -> i128 {
        match expression {
            CellExpression::Deref(cell) => self.cell(*cell).unwrap(),
            CellExpression::DoubleDeref(cell, offset) => {
                self.memory[&(self.cell(*cell).unwrap() + *offset as i128)]
            }
            CellExpression::Immediate(value) => imm(value),
            CellExpression::BinOp { op, a, b } => {
                let (a, b) = (self.cell(*a).unwrap(), self.cell_or_imm(b));
                match op {
                    CellOperator::Add => a + b,
                    CellOperator::Sub => a - b,
                    CellOperator::Mul => a * b,
                    CellOperator::Div => a * inverse(b),
                }
            }
        }
        .rem_euclid(MODULUS)
    }

    /// The value of a variable of a state that the machine is in.
    fn var(&self, state: &State, var: Var) -> i128 {
        assert!(self.holds);
        self.value(&state.get_adjusted(var))
    }

    /// Sets a cell, or tests it if it has a value.
    fn set(&mut self, cell: CellRef, value: i128) {
        let value = value.rem_euclid(MODULUS);
        let address = self.address(cell);
        let known = *self.memory.entry(address).or_insert(value);
        self.holds = self.holds && known == value;
    }

    fn assert_eq(&mut self, a: CellRef, b: &ResOperand) {
        match b {
            ResOperand::BinOp(bin_op) if self.cell(bin_op.a).is_none() => {
                // `a = dst op b` with an unknown `dst`.
                let (a, b) = (self.cell(a).unwrap(), self.cell_or_imm(&bin_op.b));
                let dst = match bin_op.op {
                    Operation::Add => a - b,
                    Operation::Mul => a * inverse(b),
                };
                self.set(bin_op.a, dst);
            }
            ResOperand::BinOp(bin_op) => {
                let (x, y) = (self.cell(bin_op.a).unwrap(), self.cell_or_imm(&bin_op.b));
                let value = match bin_op.op {
                    Operation::Add => x + y,
                    Operation::Mul => x * y,
                };
                self.set(a, value);
            }
            ResOperand::Deref(cell) => {
                let value = self.cell(*cell).unwrap();
                self.set(a, value);
            }
            ResOperand::DoubleDeref(cell, offset) => {
                let address = self.cell(*cell).unwrap() + *offset as i128;
                match self.memory.get(&address).copied() {
                    Some(value) => self.set(a, value),
                    None => {
                        let value = self.cell(a).unwrap();
                        self.memory.insert(address, value);
                    }
                }
            }
            ResOperand::Immediate(value) => self.set(a, imm(value)),
        }
    }

    /// Runs the code from its beginning until it is left, and returns the place of the instruction
    /// that leaves it or does not hold, or `None` if the end is reached.
    fn run(&mut self, code: &[Instruction]) -> Option<usize> {
        let mut places = HashMap::new();
        let mut offset: i128 = 0;
        for (place, instruction) in code.iter().enumerate() {
            places.insert(offset, place);
            offset += instruction.body.op_size() as i128;
        }
        let end = offset;
        let mut pc: i128 = 0;
        while pc != end {
            let place = places[&pc];
            let instruction = &code[place];
            self.steps += 1;
            let mut next = pc + instruction.body.op_size() as i128;
            match &instruction.body {
                InstructionBody::AddAp(inst) => match &inst.operand {
                    ResOperand::Immediate(value) => self.ap += imm(value),
                    _ => panic!("not a constant"),
                },
                InstructionBody::AssertEq(inst) => self.assert_eq(inst.a, &inst.b),
                InstructionBody::Jump(inst) => next = pc + self.cell_or_imm(&inst.target),
                InstructionBody::Jnz(inst) => {
                    if self.cell(inst.condition).unwrap() != 0 {
                        next = pc + self.cell_or_imm(&inst.jump_offset);
                    }
                }
                InstructionBody::Call(inst) => {
                    self.memory.insert(self.ap, self.fp);
                    self.memory.insert(self.ap + 1, next);
                    self.ap += 2;
                    self.fp = self.ap;
                    next = pc + self.cell_or_imm(&inst.target);
                }
                InstructionBody::Ret(_) => {
                    next = self.memory[&(self.fp - 1)];
                    self.fp = self.memory[&(self.fp - 2)];
                }
            }
            if instruction.inc_ap {
                self.ap += 1;
            }
            if next == pc || !self.holds {
                return Some(place);
            }
            pc = next;
        }
        None
    }
}

fn arg(builder: &mut CasmBuilder, offset: i16) -> Var {
    builder.add_var(CellExpression::Deref(CellRef { register: Register::FP, offset }))
}

fn constant(builder: &mut CasmBuilder, value: i128) -> Var {
    builder.add_var(CellExpression::Immediate(BigInt::from_i128(value)))
}

fn tempvar(builder: &mut CasmBuilder, op: CellOperator, a: Var, b: Var) -> Var {
    let value = builder.bin_op(op, a, b);
    let temp = builder.alloc_var(false);
    builder.assert_vars_eq(temp, value);
    temp
}

#[test]
fn arithmetic_is_computed() {
    let mut builder = CasmBuilder::default();
    let a = arg(&mut builder, -3);
    let b = arg(&mut builder, -4);
    let sum = tempvar(&mut builder, CellOperator::Add, a, b);
    let difference = tempvar(&mut builder, CellOperator::Sub, b, a);
    let product = tempvar(&mut builder, CellOperator::Mul, sum, difference);
    let quotient = tempvar(&mut builder, CellOperator::Div, product, b);
    let result = builder.build(["Fallthrough"]);
    let mut machine = Machine::new(&[12, 5]);
    assert_eq!(machine.run(&result.instructions), None);
    let state = &result.branches[0].0;
    assert_eq!(machine.ap, 1000 + state.ap_change as i128);
    assert_eq!(machine.steps, state.steps);
    assert_eq!(machine.var(state, sum), 17);
    assert_eq!(machine.var(state, difference), MODULUS - 7);
    assert_eq!(machine.var(state, product), (-119i128).rem_euclid(MODULUS));
    assert_eq!(machine.var(state, quotient) * 5 % MODULUS, machine.var(state, product));
}

#[test]
fn variables_keep_their_values_wherever_ap_is() {
    let mut builder = CasmBuilder::default();
    let three = constant(&mut builder, 3);
    let x = builder.alloc_var(false);
    builder.assert_vars_eq(x, three);
    builder.add_ap(20);
    let y = builder.maybe_add_tempvar(x);
    let twice = builder.bin_op(CellOperator::Add, y, x);
    let z = builder.maybe_add_tempvar(twice);
    builder.add_ap(20);
    let [(state, _)] = builder.build(["Fallthrough"]).branches;
    assert_eq!(state.get_adjusted(x), state.get_adjusted(y));
    assert_eq!(
        state.get_adjusted(z),
        CellExpression::Deref(CellRef { register: Register::AP, offset: 1 - 41 })
    );
}

#[test]
fn buffers_are_filled_in_order() {
    let mut builder = CasmBuilder::default();
    let buffer = arg(&mut builder, -3);
    for value in [10, 20, 30] {
        let value = constant(&mut builder, value);
        let temp = builder.maybe_add_tempvar(value);
        builder.buffer_write_and_inc(buffer, temp);
    }
    let last = builder.double_deref(buffer, -1);
    let result = builder.build(["Fallthrough"]);
    let mut machine = Machine::new(&[5000]);
    machine.run(&result.instructions);
    let state = &result.branches[0].0;
    assert_eq!([machine.memory[&5000], machine.memory[&5001], machine.memory[&5002]], [10, 20, 30]);
    assert_eq!(machine.var(state, buffer), 5003);
    assert_eq!(machine.var(state, last), 30);
}

/// Code that is left to "Zero" if `[fp - 3]` is 0, and otherwise falls through with its inverse.
fn inverting() -> (CasmBuilder, Var) {
    let mut builder = CasmBuilder::default();
    let a = arg(&mut builder, -3);
    builder.jump_nz(a, "Inverse".to_owned());
    builder.jump("Zero".to_owned());
    builder.label("Inverse".to_owned());
    let one = constant(&mut builder, 1);
    let temp = builder.alloc_var(false);
    builder.assert_vars_eq(temp, one);
    let inverse = tempvar(&mut builder, CellOperator::Div, temp, a);
    (builder, inverse)
}

#[test]
fn branches_are_taken_by_condition() {
    let (builder, inverse) = inverting();
    let result = builder.build(["Zero", "Fallthrough"]);
    let mut machine = Machine::new(&[0]);
    assert_eq!(machine.run(&result.instructions), Some(result.branches[0].1[0]));
    assert_eq!(machine.steps, result.branches[0].0.steps);
    let mut machine = Machine::new(&[4]);
    assert_eq!(machine.run(&result.instructions), None);
    let state = &result.branches[1].0;
    assert_eq!(machine.ap, 1000 + state.ap_change as i128);
    assert_eq!(machine.steps, state.steps);
    assert_eq!(machine.var(state, inverse) * 4 % MODULUS, 1);
}

#[test]
fn functions_see_the_values_that_they_are_passed() {
    let mut builder = CasmBuilder::default();
    let a = arg(&mut builder, -3);
    let one = constant(&mut builder, 1);
    let argument = tempvar(&mut builder, CellOperator::Add, a, one);
    builder.call("square".to_owned());
    let square = builder.add_var(CellExpression::Deref(CellRef {
        register: Register::AP,
        offset: -1,
    }));
    let res = tempvar(&mut builder, CellOperator::Sub, square, a);
    builder.jump("End".to_owned());
    builder.label("square".to_owned());
    tempvar(&mut builder, CellOperator::Mul, argument, argument);
    builder.ret();
    let result = builder.build(["End"]);
    let mut machine = Machine::new(&[9]);
    assert_eq!(machine.run(&result.instructions), Some(result.branches[0].1[0]));
    // (9 + 1) * (9 + 1) - 9.
    assert_eq!(machine.var(&result.branches[0].0, res), 91);
    assert_eq!(machine.var(&result.branches[0].0, a), 9);
}

#[test]
fn loops_carry_their_variables_over() {
    let mut builder = CasmBuilder::default();
    let count = arg(&mut builder, -3);
    let zero = constant(&mut builder, 0);
    let total = builder.maybe_add_tempvar(zero);
    let i = builder.alloc_var(false);
    builder.assert_vars_eq(i, count);
    builder.rescope([(i, i), (total, total)]);
    builder.jump("Loop".to_owned());
    builder.label("Loop".to_owned());
    let new_total = tempvar(&mut builder, CellOperator::Add, total, i);
    let one = constant(&mut builder, 1);
    let next = tempvar(&mut builder, CellOperator::Sub, i, one);
    builder.jump_nz(next, "Again".to_owned());
    builder.jump("Done".to_owned());
    builder.label("Again".to_owned());
    builder.rescope([(i, next), (total, new_total)]);
    builder.reset_steps();
    builder.jump("Loop".to_owned());
    let result = builder.build(["Done"]);
    let mut machine = Machine::new(&[6]);
    machine.run(&result.instructions);
    // 6 + 5 + 4 + 3 + 2 + 1.
    assert_eq!(machine.var(&result.branches[0].0, new_total), 21);
    assert_eq!(machine.var(&result.branches[0].0, next), 0);
}

#[test]
fn a_failure_stops_the_machine() {
    let mut builder = CasmBuilder::default();
    builder.add_ap(1);
    builder.fail();
    let mut machine = Machine::new(&[]);
    assert_eq!(machine.run(&builder.build([]).instructions), Some(1));
    assert!(!machine.holds);
}
