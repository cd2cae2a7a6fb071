//! The hints that accompany instructions.

use vstd::prelude::*;

use crate::operand::{CellRef, ResOperand};

verus! {

/// A hint: a step, named `name`, that the runner takes before the instruction that the hint is
/// attached to. It reads `inputs` and decides the values of the cells `outputs`.
#[derive(Debug, PartialEq, Eq)]
pub struct Hint {
    pub name: String,
    pub inputs: Vec<ResOperand>,
    pub outputs: Vec<CellRef>,
}

/// The views of operands.
pub open spec fn operands_view(operands: Seq<ResOperand>) -> Seq<ResOperand<int>> {
    operands.map_values(|operand: ResOperand| operand@)
}

/// `From` of a type for itself, the conversion to the same type: the argument comes back unchanged.
/// `Into` of a hint into a hint goes by it.
pub assume_specification<Any>[ <Any as std::convert::From<Any>>::from ](given: Any) -> (res: Any)
    ensures
        res == given,
;

impl Hint {
    /// The hint `name` that reads `inputs` and writes `outputs`.
    pub fn new<const INPUTS_COUNT: usize, const OUTPUTS_COUNT: usize>(
        name: &str,
        inputs: [ResOperand; INPUTS_COUNT],
        outputs: [CellRef; OUTPUTS_COUNT],
    ) -> (res: Self)
        ensures
            res.name@ == name@,
            operands_view(res.inputs@) == operands_view(inputs@),
            res.outputs@ == outputs@,
    {
        let mut read: Vec<ResOperand> = Vec::new();
        for i in 0..INPUTS_COUNT
            invariant
                operands_view(read@) == operands_view(inputs@).take(i as int),
        {
            let operand = inputs[i].clone();
            assert(operands_view(read@.push(operand)) =~= operands_view(read@).push(operand@));
            assert(operands_view(inputs@).take(i + 1) =~= operands_view(inputs@).take(
                i as int,
            ).push(operand@));
            read.push(operand);
        }
        let mut written: Vec<CellRef> = Vec::new();
        for i in 0..OUTPUTS_COUNT
            invariant
                written@ == outputs@.take(i as int),
        {
            written.push(outputs[i]);
        }
        assert(operands_view(inputs@).take(INPUTS_COUNT as int) =~= operands_view(inputs@));
        assert(outputs@.take(OUTPUTS_COUNT as int) =~= outputs@);
        Hint { name: name.to_owned(), inputs: read, outputs: written }
    }
}

} // verus!
