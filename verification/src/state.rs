//! The variables of the builder, and what is known of them at some line.

use vstd::prelude::*;

use crate::cell_expression::CellExpression;
use crate::operand::CellRef;
use crate::ordered_map::{Key, OrderedMap, OrderedMapView};

verus! {

/// Variables for casm builder, representing a `CellExpression`.
#[derive(Copy, Clone, Debug, PartialEq, Eq, Hash, Structural)]
pub struct Var(usize);

impl View for Var {
    type V = Var;

    open spec fn view(&self) -> Var {
        *self
    }
}

impl Key for Var {
    fn same(&self, other: &Self) -> (res: bool) {
        *self == *other
    }
}

impl Var {
    /// The variable that was made after `index` others.
    pub closed spec fn spec_new(index: usize) -> Var {
        Var(index)
    }

    /// How many variables were made before this one.
    pub closed spec fn spec_index(self) -> usize {
        self.0
    }

    /// A variable is its index, and the other way round.
    pub broadcast proof fn lemma_index(index: usize)
        ensures
            (#[trigger] Var::spec_new(index)).spec_index() == index,
    {
    }

    /// Variables with the same index are the same.
    pub broadcast proof fn lemma_new(var: Var)
        ensures
            Var::spec_new(#[trigger] var.spec_index()) == var,
    {
    }

    /// The variable that is made after `index` others.
    #[verifier::when_used_as_spec(spec_new)]
    pub(crate) fn new(index: usize) -> (res: Var)
        ensures
            res == Var::spec_new(index),
    {
        Var(index)
    }

    /// How many variables were made before this one.
    #[verifier::when_used_as_spec(spec_index)]
    pub fn index(self) -> (res: usize)
        ensures
            res == self.spec_index(),
    {
        self.0
    }
}

/// The state of the variables at some line.
#[derive(Debug, PartialEq, Eq)]
pub struct State {
    /// The value per variable.
    pub(crate) vars: OrderedMap<Var, CellExpression>,
    /// The number of allocated variables from the beginning of the run.
    pub(crate) allocated: i16,
    /// The AP change since the beginning of the run.
    pub ap_change: usize,
    /// The number of casm steps since the beginning of the run.
    pub steps: usize,
}

/// The view of a state.
#[verifier::ext_equal]
pub struct StateView {
    /// The value per variable, in relation to the AP at the beginning of the run.
    pub vars: OrderedMapView<Var, CellExpression<int>>,
    /// The number of allocated variables from the beginning of the run.
    pub allocated: int,
    /// The AP change since the beginning of the run.
    pub ap_change: int,
    /// The number of casm steps since the beginning of the run.
    pub steps: int,
}

impl View for State {
    type V = StateView;

    open(crate) spec fn view(&self) -> StateView {
        StateView {
            vars: self.vars@,
            allocated: self.allocated as int,
            ap_change: self.ap_change as int,
            steps: self.steps as int,
        }
    }
}

impl StateView {
    /// The state at the beginning of a run, with no variables.
    pub open spec fn empty() -> Self {
        StateView { vars: OrderedMapView::empty(), allocated: 0, ap_change: 0, steps: 0 }
    }

    /// What holds of every state of a builder.
    pub open spec fn wf(self) -> bool {
        &&& self.vars.wf()
        &&& 0 <= self.allocated <= i16::MAX
        &&& 0 <= self.ap_change <= usize::MAX
        &&& 0 <= self.steps <= usize::MAX
    }

    /// Whether the state knows `var`, and can write its value in relation to the current AP if that
    /// is asked for.
    pub open spec fn has_value(self, var: Var, adjust_ap: bool) -> bool {
        &&& self.vars.map.contains_key(var)
        &&& adjust_ap ==> self.vars.map[var].can_apply_ap_change(self.ap_change)
    }

    /// The value of `var`, in relation to the current AP if `adjust_ap`, to the initial AP if not.
    pub open spec fn value(self, var: Var, adjust_ap: bool) -> CellExpression<int> {
        if adjust_ap {
            self.vars.map[var].ap_changed(self.ap_change)
        } else {
            self.vars.map[var]
        }
    }

    /// Whether the value of `var` is a memory cell.
    pub open spec fn has_cell(self, var: Var, adjust_ap: bool) -> bool {
        &&& self.has_value(var, adjust_ap)
        &&& self.value(var, adjust_ap) is Deref
    }

    /// The memory cell that is the value of `var`.
    pub open spec fn cell(self, var: Var, adjust_ap: bool) -> CellRef {
        self.value(var, adjust_ap)->Deref_0
    }

    /// The state with the value `value` for `var`.
    pub open spec fn with_var(self, var: Var, value: CellExpression<int>) -> Self {
        StateView { vars: self.vars.insert(var, value), ..self }
    }

    /// Whether AP has passed all the allocated variables.
    pub open spec fn is_final(self) -> bool {
        0 <= self.allocated <= self.ap_change
    }

    /// Whether a branch in state `other` may reach a label in this state. The variables that both
    /// know have to agree. Once the label was read, such a branch may not take more steps.
    pub open spec fn can_intersect(self, other: StateView, read_only: bool) -> bool {
        &&& self.ap_change == other.ap_change
        &&& self.allocated == other.allocated
        &&& read_only ==> self.steps >= other.steps
        &&& forall|var: Var| #[trigger]
            self.vars.map.contains_key(var) && other.vars.map.contains_key(var)
                ==> self.vars.map[var] == other.vars.map[var]
    }

    /// The state of a label that is reached in this state and in `other`: the variables that both
    /// know, and the steps of the longer way.
    pub open spec fn intersected(self, other: StateView) -> Self {
        StateView {
            vars: self.vars.restrict_to(other.vars.map),
            steps: if self.steps >= other.steps {
                self.steps
            } else {
                other.steps
            },
            ..self
        }
    }
}

impl State {
    /// Returns the value, in relation to the initial ap value.
    pub(crate) fn get_value(&self, var: Var) -> (res: CellExpression)
        requires
            self@.has_value(var, false),
        ensures
            res@ == self@.value(var, false),
    {
        self.vars.get(&var).unwrap().clone()
    }

    /// Returns the value, in relation to the current ap value.
    pub fn get_adjusted(&self, var: Var) -> (res: CellExpression)
        requires
            self@.has_value(var, true),
        ensures
            res@ == self@.value(var, true),
    {
        self.get_value(var).unchecked_apply_known_ap_change(self.ap_change)
    }

    /// Returns the value, assuming it is a direct cell reference.
    pub fn get_adjusted_as_cell_ref(&self, var: Var) -> (res: CellRef)
        requires
            self@.has_cell(var, true),
        ensures
            res == self@.cell(var, true),
    {
        match self.get_adjusted(var) {
            CellExpression::Deref(cell) => cell,
            _ => vstd::pervasive::unreached(),
        }
    }

    /// Returns the value if the state knows `var` and can write it that way.
    pub(crate) fn find_value(&self, var: Var, adjust_ap: bool) -> (res: Option<CellExpression>)
        ensures
            res is Some <==> self@.has_value(var, adjust_ap),
            res matches Some(value) ==> value@ == self@.value(var, adjust_ap),
    {
        match self.vars.get(&var) {
            Some(value) => if adjust_ap {
                value.clone().apply_known_ap_change(self.ap_change)
            } else {
                Some(value.clone())
            },
            None => None,
        }
    }

    /// Returns the value if it is a direct cell reference.
    pub(crate) fn find_cell(&self, var: Var, adjust_ap: bool) -> (res: Option<CellRef>)
        ensures
            res == (if self@.has_cell(var, adjust_ap) {
                Some(self@.cell(var, adjust_ap))
            } else {
                None
            }),
    {
        match self.find_value(var, adjust_ap) {
            Some(CellExpression::Deref(cell)) => Some(cell),
            _ => None,
        }
    }

    /// Validates that the state is valid, as it had enough ap change.
    pub fn validate_finality(&self) -> (res: bool)
        ensures
            res == self@.is_final(),
    {
        0 <= self.allocated && self.allocated as i128 <= self.ap_change as i128
    }

    /// Whether a branch with these variables, AP change and steps may reach a label in this state.
    pub(crate) fn agrees_with(
        &self,
        vars: &OrderedMap<Var, CellExpression>,
        allocated: i16,
        ap_change: usize,
        steps: usize,
        read_only: bool,
    ) -> (res: bool)
        ensures
            res == self@.can_intersect(
                StateView {
                    vars: vars@,
                    allocated: allocated as int,
                    ap_change: ap_change as int,
                    steps: steps as int,
                },
                read_only,
            ),
    {
        if self.ap_change != ap_change || self.allocated != allocated || (read_only && self.steps
            < steps) {
            return false;
        }
        let len = self.vars.len();
        proof {
            use_type_invariant(&self.vars);
        }
        for i in 0..len
            invariant
                len == self.vars@.keys.len(),
                self.vars@.wf(),
                forall|j: int|
                    #![trigger self.vars@.keys[j]]
                    0 <= j < i && vars@.map.contains_key(self.vars@.keys[j])
                        ==> self.vars@.map[self.vars@.keys[j]] == vars@.map[self.vars@.keys[j]],
        {
            let (var, value) = self.vars.entry(i);
            if let Some(other) = vars.get(var) {
                if !value.equals(other) {
                    assert(self@.vars.map.contains_key(*var));
                    return false;
                }
            }
        }
        true
    }

    /// Intersect the states of branches leading to the same label, validating that the states can
    /// intersect.
    pub(crate) fn intersect(&mut self, other: &Self, read_only: bool)
        requires
            old(self)@.can_intersect(other@, read_only),
        ensures
            final(self)@ == old(self)@.intersected(other@),
    {
        if !read_only && self.steps < other.steps {
            self.steps = other.steps;
        }
        self.vars.retain_keys_of(&other.vars);
    }
}

impl Default for State {
    fn default() -> (res: Self)
        ensures
            res@ == StateView::empty(),
    {
        State { vars: OrderedMap::new(), allocated: 0, ap_change: 0, steps: 0 }
    }
}

impl Clone for State {
    fn clone(&self) -> (res: Self)
        ensures
            res@ == self@,
    {
        let mut vars: OrderedMap<Var, CellExpression> = OrderedMap::new();
        let len = self.vars.len();
        proof {
            use_type_invariant(&self.vars);
        }
        for i in 0..len
            invariant
                len == self.vars@.keys.len(),
                self.vars@.wf(),
                vars@.wf(),
                vars@.keys == self.vars@.keys.take(i as int),
                forall|var: Var| #[trigger]
                    vars@.map.contains_key(var) ==> self.vars@.map.contains_key(var)
                        && vars@.map[var] == self.vars@.map[var],
        {
            let (var, value) = self.vars.entry(i);
            vars.insert(*var, value.clone());
            proof {
                use_type_invariant(&vars);
            }
        }
        assert(self.vars@.keys.take(len as int) =~= self.vars@.keys);
        State { vars, allocated: self.allocated, ap_change: self.ap_change, steps: self.steps }
    }
}

} // verus!
