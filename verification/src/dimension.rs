//! One metered resource: its cost models, its limit and what was used of it.

use vstd::math::{max, min};
use vstd::prelude::*;

use crate::cost_model::{
    saturate, saturating_product, ContractCostParamEntry, ContractCostParams, ExtensionPoint,
    HostCostModel,
};
use crate::cost_type::{ContractCostType, COST_TYPE_COUNT};
use crate::error::{HostError, ScErrorCode, ScErrorType};

verus! {

/// The sum of a sequence of amounts.
pub open spec fn sum(amounts: Seq<u64>) -> int
    decreases amounts.len(),
{
    if amounts.len() == 0 {
        0
    } else {
        sum(amounts.drop_last()) + amounts.last()
    }
}

/// What a [`BudgetDimension`] holds.
#[verifier::ext_equal]
pub struct DimensionView {
    /// The cost model of each kind of work, by its position.
    pub cost_models: Seq<ContractCostParamEntry>,
    /// The amount of the resource that may be used.
    pub limit: u64,
    /// The amount that each kind of work has used, by its position.
    pub counts: Seq<u64>,
    /// The amount that all work together has used.
    pub total_count: u64,
}

impl DimensionView {
    /// There is a count for each cost model, and the total is the sum of the counts
    /// as far as a `u64` can hold it.
    pub open spec fn wf(self) -> bool {
        &&& self.counts.len() == self.cost_models.len()
        &&& self.total_count == saturate(sum(self.counts))
    }

    /// Whether there is a cost model for a kind of work.
    pub open spec fn covers(self, ty: ContractCostType) -> bool {
        ty.position() < self.cost_models.len()
    }

    /// The cost model of a kind of work.
    pub open spec fn model(self, ty: ContractCostType) -> ContractCostParamEntry {
        self.cost_models[ty.position()]
    }

    /// Whether more was used than the limit allows.
    pub open spec fn over_budget(self) -> bool {
        self.total_count > self.limit
    }

    /// What is left of the limit.
    pub open spec fn remaining(self) -> u64 {
        if self.over_budget() {
            0
        } else {
            (self.limit - self.total_count) as u64
        }
    }

    /// The exact amount that a number of pieces of work of one kind and size use.
    pub open spec fn amount(
        self,
        ty: ContractCostType,
        iterations: u64,
        input: Option<u64>,
    ) -> int {
        self.model(ty).cost(input) * iterations
    }

    /// The state after work of one kind has used an amount.
    pub open spec fn used(self, ty: ContractCostType, amount: int) -> DimensionView {
        DimensionView {
            counts: self.counts.update(
                ty.position(),
                saturate(self.counts[ty.position()] + amount),
            ),
            total_count: saturate(self.total_count + amount),
            ..self
        }
    }

    /// The state after a charge. Work whose model cannot be evaluated uses nothing;
    /// all other work is counted, also when it goes over the limit.
    pub open spec fn charged(
        self,
        ty: ContractCostType,
        iterations: u64,
        input: Option<u64>,
    ) -> DimensionView {
        if self.model(ty).valid() {
            self.used(ty, self.amount(ty, iterations, input))
        } else {
            self
        }
    }

    /// The answer to a charge.
    pub open spec fn charge_result(
        self,
        ty: ContractCostType,
        iterations: u64,
        input: Option<u64>,
    ) -> Result<(), HostError> {
        if !self.model(ty).valid() {
            Err(HostError::invalid_model())
        } else if self.charged(ty, iterations, input).over_budget() {
            Err(HostError::over_budget())
        } else {
            Ok(())
        }
    }

    /// What one unit of fuel is worth, where fuel is what a kind of work is counted in:
    /// the linear term of its model, and at least one.
    pub open spec fn per_fuel(self, ty: ContractCostType) -> int {
        if self.model(ty).linear_term < 1 {
            1
        } else {
            self.model(ty).linear_term as int
        }
    }

    /// What is left of the limit, in whole units of fuel.
    pub open spec fn remaining_as_fuel(self, ty: ContractCostType) -> Result<u64, HostError> {
        if self.model(ty).linear_term < 0 {
            Err(HostError::invalid_model())
        } else {
            Ok((self.remaining() as int / self.per_fuel(ty)) as u64)
        }
    }

    /// The state with nothing used and a new limit.
    pub open spec fn emptied(self, limit: u64) -> DimensionView {
        DimensionView {
            limit,
            counts: Seq::new(self.counts.len(), |i: int| 0u64),
            total_count: 0,
            ..self
        }
    }

    /// The state with all terms of all cost models set to zero.
    pub open spec fn with_free_models(self) -> DimensionView {
        DimensionView {
            cost_models: self.cost_models.map_values(
                |model: ContractCostParamEntry|
                    ContractCostParamEntry { const_term: 0, linear_term: 0, ..model },
            ),
            ..self
        }
    }

    /// The state with the given models, with nothing used and a limit of zero.
    pub open spec fn of_models(cost_models: Seq<ContractCostParamEntry>) -> DimensionView {
        DimensionView {
            cost_models,
            limit: 0,
            counts: Seq::new(cost_models.len(), |i: int| 0u64),
            total_count: 0,
        }
    }
}

/// The limit of one resource and what was used of it, by kind of work and in all.
#[derive(Clone, PartialEq, Eq, PartialOrd, Ord, Hash)]
pub struct BudgetDimension {
    /// A set of cost models that map input values (eg. event counts, object
    /// sizes) from some kind of work to the resource that this dimension tracks
    /// (eg. cpu or memory). The index of a kind is its index into this vector, to
    /// make lookups as cheap as possible.
    cost_models: Vec<ContractCostParamEntry>,
    /// The limit that the total is compared to, to decide if we're over budget.
    limit: u64,
    /// Tracks the output value of each cost model.
    counts: Vec<u64>,
    /// Tracks the sum of the output values of the cost models, for comparing to
    /// the limit.
    total_count: u64,
}

impl View for BudgetDimension {
    type V = DimensionView;

    closed spec fn view(&self) -> DimensionView {
        DimensionView {
            cost_models: self.cost_models@,
            limit: self.limit,
            counts: self.counts@,
            total_count: self.total_count,
        }
    }
}

impl BudgetDimension {
    /// A dimension in which all work is free, with nothing used and a limit of zero.
    pub fn new() -> (bd: Self)
        ensures
            bd@.wf(),
            bd@ == DimensionView::of_models(
                Seq::new(COST_TYPE_COUNT as nat, |i: int| ContractCostParamEntry::free()),
            ),
    {
        let mut cost_models: Vec<ContractCostParamEntry> = Vec::new();
        let mut counts: Vec<u64> = Vec::new();
        let mut i: usize = 0;
        while i < COST_TYPE_COUNT
            invariant
                i <= COST_TYPE_COUNT,
                cost_models@ == Seq::new(i as nat, |j: int| ContractCostParamEntry::free()),
                counts@ == Seq::new(i as nat, |j: int| 0u64),
            decreases COST_TYPE_COUNT - i,
        {
            cost_models.push(
                ContractCostParamEntry { const_term: 0, linear_term: 0, ext: ExtensionPoint::V0 },
            );
            counts.push(0);
            i = i + 1;
        }
        proof {
            lemma_sum_of_zeros(counts@);
        }
        BudgetDimension { cost_models, limit: 0, counts, total_count: 0 }
    }

    /// A dimension with the given cost models, with nothing used and a limit of zero.
    pub fn from_config(cost_params: ContractCostParams) -> (bd: Self)
        ensures
            bd@.wf(),
            bd@ == DimensionView::of_models(cost_params.0@),
    {
        let cost_models = cost_params.0;
        let counts: Vec<u64> = vec![0; cost_models.len()];
        proof {
            lemma_sum_of_zeros(counts@);
            assert(counts@ =~= Seq::new(cost_models@.len(), |i: int| 0u64));
        }
        BudgetDimension { cost_models, limit: 0, counts, total_count: 0 }
    }

    /// Whether there is a cost model for a kind of work.
    pub fn has_model(&self, ty: ContractCostType) -> (has_model: bool)
        ensures
            has_model == self@.covers(ty),
    {
        ty.index() < self.cost_models.len()
    }

    /// The cost model of a kind of work.
    pub fn get_cost_model(&self, ty: ContractCostType) -> (model: &ContractCostParamEntry)
        requires
            self@.covers(ty),
        ensures
            *model == self@.model(ty),
    {
        &self.cost_models[ty.index()]
    }

    /// The cost model of a kind of work, to be changed.
    pub fn get_cost_model_mut(&mut self, ty: ContractCostType) -> (model:
        &mut ContractCostParamEntry)
        requires
            old(self)@.covers(ty),
        ensures
            *model == old(self)@.model(ty),
            final(self)@ == (DimensionView {
                cost_models: old(self)@.cost_models.update(ty.position(), *final(model)),
                ..old(self)@
            }),
    {
        &mut self.cost_models[ty.index()]
    }

    /// The amount that a kind of work has used.
    pub fn get_count(&self, ty: ContractCostType) -> (count: u64)
        requires
            self@.wf(),
            self@.covers(ty),
        ensures
            count == self@.counts[ty.position()],
    {
        self.counts[ty.index()]
    }

    /// The amount that all work together has used.
    pub fn get_total_count(&self) -> (total: u64)
        ensures
            total == self@.total_count,
    {
        self.total_count
    }

    /// The amount that may be used.
    pub fn get_limit(&self) -> (limit: u64)
        ensures
            limit == self@.limit,
    {
        self.limit
    }

    /// What is left of the limit; zero where more was used than it allows.
    pub fn get_remaining(&self) -> (remaining: u64)
        ensures
            remaining == self@.remaining(),
            remaining == max(0, self@.limit - self@.total_count),
    {
        self.limit.saturating_sub(self.total_count)
    }

    /// Forgets all that was used and sets a new limit. The cost models stay.
    pub fn reset(&mut self, limit: u64)
        ensures
            final(self)@ == old(self)@.emptied(limit),
            old(self)@.wf() ==> final(self)@.wf(),
    {
        self.limit = limit;
        self.total_count = 0;
        let mut i: usize = 0;
        while i < self.counts.len()
            invariant
                i <= self.counts@.len(),
                self.cost_models@ == old(self)@.cost_models,
                self.limit == limit,
                self.total_count == 0,
                self.counts@.len() == old(self)@.counts.len(),
                forall|j: int| 0 <= j < i ==> self.counts@[j] == 0,
            decreases self.counts@.len() - i,
        {
            self.counts.set(i, 0);
            i = i + 1;
        }
        proof {
            lemma_sum_of_zeros(self.counts@);
        }
    }

    /// Whether more was used than the limit allows.
    pub fn is_over_budget(&self) -> (over: bool)
        ensures
            over == self@.over_budget(),
    {
        self.total_count > self.limit
    }

    /// The amount that a number of pieces of work of one kind and size would use.
    pub fn price(&self, ty: ContractCostType, iterations: u64, input: Option<u64>) -> (amount:
        Result<u64, HostError>)
        requires
            self@.covers(ty),
        ensures
            amount == (if self@.model(ty).valid() {
                Ok(saturate(self@.amount(ty, iterations, input)))
            } else {
                Err(HostError::invalid_model())
            }),
            amount is Ok ==> amount->Ok_0 == min(
                u64::MAX as int,
                match input {
                    Some(x) => (self@.cost_models[ty.position()].const_term
                        + self@.cost_models[ty.position()].linear_term * x) * iterations,
                    None => self@.cost_models[ty.position()].const_term * iterations,
                },
            ),
    {
        let cost: u64 = match self.get_cost_model(ty).evaluate(input) {
            Ok(cost) => cost,
            Err(error) => return Err(error),
        };
        proof {
            lemma_saturated_product(self@.model(ty).cost(input), iterations);
        }
        Ok(saturating_product(cost, iterations))
    }

    /// Performs a bulk charge to the budget under the specified kind of work.
    /// If the input is `Some`, then the total input charged is iterations *
    /// input, assuming all batched units have the same input size. If input
    /// is `None`, the model is treated as a constant model, and the amount charged
    /// is iterations * const_term.
    pub fn charge(
        &mut self,
        ty: ContractCostType,
        iterations: u64,
        input: Option<u64>,
    ) -> (result: Result<(), HostError>)
        requires
            old(self)@.wf(),
            old(self)@.covers(ty),
        ensures
            final(self)@ == old(self)@.charged(ty, iterations, input),
            result == old(self)@.charge_result(ty, iterations, input),
            final(self)@.wf(),
    {
        let amount: u64 = match self.price(ty, iterations, input) {
            Ok(amount) => amount,
            Err(error) => return Err(error),
        };
        let i: usize = ty.index();
        proof {
            lemma_amount_nonnegative(self@, ty, iterations, input);
            lemma_used_keeps_wf(self@, ty, self@.amount(ty, iterations, input));
        }
        let count: u64 = self.counts[i].saturating_add(amount);
        self.counts.set(i, count);
        self.total_count = self.total_count.saturating_add(amount);
        if self.is_over_budget() {
            Err(HostError::from((ScErrorType::Budget, ScErrorCode::ExceededLimit)))
        } else {
            Ok(())
        }
    }

    /// Sets the terms of all cost models to zero, so that single ones can be set
    /// afterwards.
    pub fn reset_models(&mut self)
        ensures
            final(self)@ == old(self)@.with_free_models(),
            old(self)@.wf() ==> final(self)@.wf(),
    {
        let mut i: usize = 0;
        while i < self.cost_models.len()
            invariant
                i <= self.cost_models@.len(),
                self.limit == old(self)@.limit,
                self.total_count == old(self)@.total_count,
                self.counts@ == old(self)@.counts,
                self.cost_models@.len() == old(self)@.cost_models.len(),
                forall|j: int|
                    0 <= j < i ==> self.cost_models@[j] == old(self)@.with_free_models().cost_models[j],
                forall|j: int|
                    i <= j < self.cost_models@.len() ==> self.cost_models@[j]
                        == old(self)@.cost_models[j],
            decreases self.cost_models@.len() - i,
        {
            self.cost_models[i].reset();
            i = i + 1;
        }
    }
}

/// Zeros add up to zero.
pub proof fn lemma_sum_of_zeros(amounts: Seq<u64>)
    requires
        forall|i: int| 0 <= i < amounts.len() ==> amounts[i] == 0,
    ensures
        sum(amounts) == 0,
    decreases amounts.len(),
{
    if amounts.len() > 0 {
        lemma_sum_of_zeros(amounts.drop_last());
    }
}

/// A sum is at least each of its terms, and replacing a term changes it by the
/// difference.
proof fn lemma_sum_update(amounts: Seq<u64>, i: int, amount: u64)
    requires
        0 <= i < amounts.len(),
    ensures
        0 <= amounts[i] <= sum(amounts),
        sum(amounts.update(i, amount)) == sum(amounts) - amounts[i] + amount,
    decreases amounts.len(),
{
    let last = amounts.len() - 1;
    let updated = amounts.update(i, amount);
    lemma_sum_nonnegative(amounts.drop_last());
    if i == last {
        assert(updated.drop_last() =~= amounts.drop_last());
    } else {
        lemma_sum_update(amounts.drop_last(), i, amount);
        assert(updated.drop_last() =~= amounts.drop_last().update(i, amount));
    }
}

proof fn lemma_sum_nonnegative(amounts: Seq<u64>)
    ensures
        0 <= sum(amounts),
    decreases amounts.len(),
{
    if amounts.len() > 0 {
        lemma_sum_nonnegative(amounts.drop_last());
    }
}

/// Saturating a factor first does not change a saturated product.
proof fn lemma_saturated_product(cost: int, iterations: u64)
    requires
        0 <= cost,
    ensures
        0 <= cost * iterations,
        saturate(saturate(cost) * iterations) == saturate(cost * iterations),
{
    assert(0 <= cost * iterations) by (nonlinear_arith)
        requires
            0 <= cost,
    ;
    if cost > u64::MAX && iterations > 0 {
        assert(cost * iterations >= cost) by (nonlinear_arith)
            requires
                cost > u64::MAX,
                iterations > 0,
        ;
        assert(u64::MAX * iterations >= u64::MAX) by (nonlinear_arith)
            requires
                iterations > 0,
        ;
    }
}

/// Work whose model can be evaluated uses no negative amount.
pub proof fn lemma_amount_nonnegative(
    dim: DimensionView,
    ty: ContractCostType,
    iterations: u64,
    input: Option<u64>,
)
    requires
        dim.model(ty).valid(),
    ensures
        0 <= dim.amount(ty, iterations, input),
{
    lemma_saturated_product(dim.model(ty).cost(input), iterations);
}

/// Counting an amount keeps the total the sum of the counts.
pub proof fn lemma_used_keeps_wf(dim: DimensionView, ty: ContractCostType, amount: int)
    requires
        dim.wf(),
        dim.covers(ty),
        0 <= amount,
    ensures
        dim.used(ty, amount).wf(),
{
    let i = ty.position();
    lemma_sum_update(dim.counts, i, saturate(dim.counts[i] + amount));
}

} // verus!
