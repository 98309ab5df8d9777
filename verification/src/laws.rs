//! What holds of a budget across its operations.

use vstd::prelude::*;

use crate::budget::BudgetView;
use crate::cost_model::{saturate, ContractCostParamEntry, ContractCostParams};
use crate::cost_type::{law_positions_number_the_kinds, lemma_positions, ContractCostType};
use crate::dimension::{
    lemma_amount_nonnegative, lemma_sum_of_zeros, lemma_used_keeps_wf, sum, DimensionView,
};
use crate::error::HostError;
use crate::fuel::{FuelConfig, FuelSchedule};
use crate::schedule::{
    default_cpu_model, default_mem_model, DEFAULT_CPU_LIMIT, DEFAULT_MEM_LIMIT,
};

verus! {

/// Larger work costs no less, and work without a size costs what work of size zero
/// does.
pub proof fn law_cost_grows_with_input(model: ContractCostParamEntry, x: u64, y: u64)
    requires
        model.valid(),
        x <= y,
    ensures
        0 <= model.cost(None) <= model.cost(Some(x)) <= model.cost(Some(y)),
        model.cost(None) == model.cost(Some(0)),
        model.linear_term == 0 ==> model.cost(Some(x)) == model.cost(None),
{
    let b = model.linear_term;
    assert(0 <= b * x <= b * y) by (nonlinear_arith)
        requires
            0 <= b,
            x <= y,
    ;
    if b == 0 {
        assert(b * x == 0) by (nonlinear_arith)
            requires
                b == 0,
        ;
    }
}

/// Whatever is done to a resource, its total stays the sum of its counts, as far as a
/// `u64` can hold it.
pub proof fn law_total_stays_the_sum_of_the_counts(
    dim: DimensionView,
    ty: ContractCostType,
    iterations: u64,
    input: Option<u64>,
    limit: u64,
)
    requires
        dim.wf(),
        dim.covers(ty),
    ensures
        dim.charged(ty, iterations, input).total_count == saturate(
            sum(dim.charged(ty, iterations, input).counts),
        ),
        dim.emptied(limit).total_count == saturate(sum(dim.emptied(limit).counts)),
        dim.with_free_models().total_count == saturate(sum(dim.with_free_models().counts)),
{
    if dim.model(ty).valid() {
        lemma_amount_nonnegative(dim, ty, iterations, input);
        lemma_used_keeps_wf(dim, ty, dim.amount(ty, iterations, input));
    }
    lemma_sum_of_zeros(dim.emptied(limit).counts);
}

/// A charge never lowers what was used, and touches neither the limit, nor the cost
/// models, nor what another kind of work has used.
pub proof fn law_charge_only_adds(
    dim: DimensionView,
    ty: ContractCostType,
    iterations: u64,
    input: Option<u64>,
    other: ContractCostType,
)
    requires
        dim.wf(),
        dim.covers(ty),
        dim.covers(other),
    ensures
        ({
            let after = dim.charged(ty, iterations, input);
            &&& after.total_count >= dim.total_count
            &&& after.counts[ty.position()] >= dim.counts[ty.position()]
            &&& other != ty ==> after.counts[other.position()] == dim.counts[other.position()]
            &&& after.limit == dim.limit
            &&& after.cost_models == dim.cost_models
        }),
{
    lemma_positions(ty, other);
    if dim.model(ty).valid() {
        lemma_amount_nonnegative(dim, ty, iterations, input);
    }
}

/// A charge succeeds exactly if its cost model can be evaluated and the exact total is
/// within the limit. The greatest limit there is allows everything.
pub proof fn law_charge_succeeds_within_the_limit(
    dim: DimensionView,
    ty: ContractCostType,
    iterations: u64,
    input: Option<u64>,
)
    requires
        dim.covers(ty),
    ensures
        dim.charge_result(ty, iterations, input) is Ok <==> {
            &&& dim.model(ty).valid()
            &&& {
                ||| dim.total_count + dim.amount(ty, iterations, input) <= dim.limit
                ||| dim.limit == u64::MAX
            }
        },
        dim.charge_result(ty, iterations, input) == Err::<(), HostError>(
            HostError::invalid_model(),
        ) <==> !dim.model(ty).valid(),
{
}

/// Once a resource is over budget, every further charge to it is refused and leaves it
/// over budget.
pub proof fn law_over_budget_stays_over_budget(
    dim: DimensionView,
    ty: ContractCostType,
    iterations: u64,
    input: Option<u64>,
)
    requires
        dim.covers(ty),
        dim.over_budget(),
    ensures
        dim.charge_result(ty, iterations, input) is Err,
        dim.charged(ty, iterations, input).over_budget(),
        dim.remaining() == 0,
        dim.charged(ty, iterations, input).remaining() == 0,
{
    if dim.model(ty).valid() {
        lemma_amount_nonnegative(dim, ty, iterations, input);
    }
}

/// Within budget, what is used and what remains add up to the limit, and a charge that
/// succeeds moves exactly its amount from the one to the other. The amount is exact
/// where the total does not outgrow a `u64`.
pub proof fn law_remaining_complements_the_total(
    dim: DimensionView,
    ty: ContractCostType,
    iterations: u64,
    input: Option<u64>,
)
    requires
        dim.covers(ty),
        dim.charge_result(ty, iterations, input) is Ok,
        dim.total_count + dim.amount(ty, iterations, input) <= u64::MAX,
    ensures
        dim.total_count + dim.remaining() == dim.limit,
        dim.charged(ty, iterations, input).total_count == dim.total_count + dim.amount(
            ty,
            iterations,
            input,
        ),
        dim.charged(ty, iterations, input).remaining() == dim.remaining() - dim.amount(
            ty,
            iterations,
            input,
        ),
{
    lemma_amount_nonnegative(dim, ty, iterations, input);
}

/// To one resource, a batch costs what its parts cost together: two charges for the same
/// kind and size have the effect of one for all iterations, and the second is answered
/// as that one would be.
pub proof fn law_charges_add_up(
    dim: DimensionView,
    ty: ContractCostType,
    first: u64,
    second: u64,
    input: Option<u64>,
)
    requires
        dim.wf(),
        dim.covers(ty),
        first + second <= u64::MAX,
    ensures
        dim.charged(ty, first, input).charged(ty, second, input) == dim.charged(
            ty,
            (first + second) as u64,
            input,
        ),
        dim.charged(ty, first, input).charge_result(ty, second, input) == dim.charge_result(
            ty,
            (first + second) as u64,
            input,
        ),
{
    lemma_positions(ty, ty);
    let cost = dim.model(ty).cost(input);
    let all = (first + second) as u64;
    assert(cost * first + cost * second == cost * all) by (nonlinear_arith)
        requires
            all == first + second,
    ;
    if dim.model(ty).valid() {
        lemma_amount_nonnegative(dim, ty, first, input);
        lemma_amount_nonnegative(dim, ty, second, input);
        assert(dim.charged(ty, first, input).charged(ty, second, input).counts =~= dim.charged(
            ty,
            all,
            input,
        ).counts);
    }
}

/// The order of two charges makes no difference to what they use.
pub proof fn law_charges_commute(
    dim: DimensionView,
    a: ContractCostType,
    a_iterations: u64,
    a_input: Option<u64>,
    b: ContractCostType,
    b_iterations: u64,
    b_input: Option<u64>,
)
    requires
        dim.wf(),
        dim.covers(a),
        dim.covers(b),
    ensures
        dim.charged(a, a_iterations, a_input).charged(b, b_iterations, b_input) == dim.charged(
            b,
            b_iterations,
            b_input,
        ).charged(a, a_iterations, a_input),
{
    if dim.model(a).valid() {
        lemma_amount_nonnegative(dim, a, a_iterations, a_input);
    }
    if dim.model(b).valid() {
        lemma_amount_nonnegative(dim, b, b_iterations, b_input);
    }
    if dim.model(a).valid() && dim.model(b).valid() {
        lemma_uses_commute(
            dim,
            a,
            dim.amount(a, a_iterations, a_input),
            b,
            dim.amount(b, b_iterations, b_input),
        );
    }
}

proof fn lemma_uses_commute(
    dim: DimensionView,
    a: ContractCostType,
    a_amount: int,
    b: ContractCostType,
    b_amount: int,
)
    requires
        dim.wf(),
        dim.covers(a),
        dim.covers(b),
        0 <= a_amount,
        0 <= b_amount,
    ensures
        dim.used(a, a_amount).used(b, b_amount) == dim.used(b, b_amount).used(a, a_amount),
{
    lemma_positions(a, b);
    assert(dim.used(a, a_amount).used(b, b_amount).counts =~= dim.used(b, b_amount).used(
        a,
        a_amount,
    ).counts);
}

/// A reset forgets every charge.
pub proof fn law_reset_forgets_charges(
    dim: DimensionView,
    ty: ContractCostType,
    iterations: u64,
    input: Option<u64>,
    limit: u64,
)
    requires
        dim.wf(),
        dim.covers(ty),
    ensures
        dim.charged(ty, iterations, input).emptied(limit) == dim.emptied(limit),
        dim.emptied(limit).remaining() == limit,
        !dim.emptied(limit).over_budget(),
{
    assert(dim.charged(ty, iterations, input).emptied(limit).counts =~= dim.emptied(
        limit,
    ).counts);
}

/// With all terms of the cost models at zero, and for a batch of nothing under a model
/// that can be evaluated, a charge uses nothing and is refused only if the resource is
/// over budget already.
pub proof fn law_free_work_uses_nothing(
    dim: DimensionView,
    ty: ContractCostType,
    iterations: u64,
    input: Option<u64>,
)
    requires
        dim.wf(),
        dim.covers(ty),
    ensures
        dim.with_free_models().charged(ty, iterations, input) == dim.with_free_models(),
        dim.with_free_models().charge_result(ty, iterations, input) is Ok <==> !dim.over_budget(),
        dim.charged(ty, 0, input) == dim,
        dim.model(ty).valid() ==> (dim.charge_result(ty, 0, input) is Ok <==> !dim.over_budget()),
{
    lemma_positions(ty, ty);
    let free = dim.with_free_models();
    assert(free.amount(ty, iterations, input) == 0) by (nonlinear_arith)
        requires
            free.amount(ty, iterations, input) == free.model(ty).cost(input) * iterations,
            free.model(ty).cost(input) == 0,
    ;
    assert(free.charged(ty, iterations, input).counts =~= free.counts);
    assert(dim.amount(ty, 0, input) == 0) by (nonlinear_arith)
        requires
            dim.amount(ty, 0, input) == dim.model(ty).cost(input) * 0,
    ;
    assert(dim.charged(ty, 0, input).counts =~= dim.counts);
}

/// Fuel is granted in whole units: their worth is within what remains, and less than one
/// unit is withheld.
pub proof fn law_fuel_rounds_down_by_less_than_a_unit(dim: DimensionView, ty: ContractCostType)
    requires
        dim.covers(ty),
        dim.remaining_as_fuel(ty) is Ok,
    ensures
        ({
            let fuel = dim.remaining_as_fuel(ty)->Ok_0;
            &&& fuel * dim.per_fuel(ty) <= dim.remaining()
            &&& dim.remaining() - fuel * dim.per_fuel(ty) < dim.per_fuel(ty)
        }),
{
    let remaining = dim.remaining() as int;
    let per_fuel = dim.per_fuel(ty);
    let quotient = remaining / per_fuel;
    assert(0 <= quotient <= remaining && quotient * per_fuel <= remaining && remaining - quotient
        * per_fuel < per_fuel) by (nonlinear_arith)
        requires
            0 <= remaining,
            1 <= per_fuel,
            quotient == remaining / per_fuel,
    ;
}

/// Fuel that was granted can be spent, where a unit of it is charged at no more than it
/// was worth when it was granted.
pub proof fn law_granted_fuel_can_be_spent(dim: DimensionView, ty: ContractCostType, fuel: u64)
    requires
        dim.covers(ty),
        dim.model(ty).valid(),
        dim.model(ty).const_term <= dim.per_fuel(ty),
        !dim.over_budget(),
        fuel <= dim.remaining_as_fuel(ty)->Ok_0,
    ensures
        dim.charge_result(ty, fuel, None) is Ok,
{
    law_fuel_rounds_down_by_less_than_a_unit(dim, ty);
    let granted = dim.remaining_as_fuel(ty)->Ok_0;
    let const_term = dim.model(ty).const_term as int;
    let per_fuel = dim.per_fuel(ty);
    assert(const_term * fuel <= granted * per_fuel) by (nonlinear_arith)
        requires
            0 <= const_term <= per_fuel,
            fuel <= granted,
    ;
}

/// A charge to a disabled budget succeeds and leaves no trace, and so does one between
/// disabling a budget and putting it back.
pub proof fn law_disabled_budget_is_free(
    b: BudgetView,
    ty: ContractCostType,
    iterations: u64,
    input: Option<u64>,
)
    ensures
        !b.enabled ==> b.charged(ty, iterations, input) == b,
        !b.enabled ==> b.charge_result(ty, iterations, input) is Ok,
        b.with_enabled(false).can_charge(ty, iterations, input),
        b.with_enabled(false).charge_result(ty, iterations, input) is Ok,
        b.with_enabled(false).charged(ty, iterations, input).with_enabled(b.enabled) == b,
{
}

/// A charge keeps a budget sound: both totals stay the sums of their counts, and the
/// tracker goes on to have a total of sizes for exactly the kinds of work that have a
/// size.
pub proof fn law_charge_keeps_the_budget_sound(
    b: BudgetView,
    ty: ContractCostType,
    iterations: u64,
    input: Option<u64>,
)
    requires
        b.wf(),
        b.can_charge(ty, iterations, input),
    ensures
        b.charged(ty, iterations, input).wf(),
{
    if b.enabled && BudgetView::input_fits(ty, input) {
        lemma_metered_dimensions(b, ty, iterations, input);
    }
    lemma_noted_keeps_wf(b, ty, iterations, input);
    lemma_noted_keeps_wf(
        b.noted(ty, iterations, input),
        ContractCostType::ChargeBudget,
        1,
        None,
    );
}

proof fn lemma_noted_keeps_wf(
    b: BudgetView,
    ty: ContractCostType,
    iterations: u64,
    input: Option<u64>,
)
    requires
        b.wf(),
    ensures
        b.noted(ty, iterations, input).wf(),
{
    law_positions_number_the_kinds();
}

proof fn lemma_metered_dimensions(
    b: BudgetView,
    ty: ContractCostType,
    iterations: u64,
    input: Option<u64>,
)
    requires
        b.wf(),
        b.enabled,
        BudgetView::input_fits(ty, input),
        b.can_charge(ty, iterations, input),
    ensures
        b.charged(ty, iterations, input).cpu_insns.wf(),
        b.charged(ty, iterations, input).mem_bytes.wf(),
{
    let overhead = ContractCostType::ChargeBudget;
    law_total_stays_the_sum_of_the_counts(b.cpu_insns, overhead, 1, None, 0);
    if b.cpu_insns.charge_result(overhead, 1, None) is Ok {
        law_total_stays_the_sum_of_the_counts(
            b.cpu_after_overhead(),
            ty,
            iterations,
            input,
            0,
        );
    }
    if b.cpu_result(ty, iterations, input) is Ok {
        law_total_stays_the_sum_of_the_counts(b.mem_bytes, ty, iterations, input, 0);
    }
}

/// A charge to an enabled budget succeeds exactly if its input fits, all cost models that
/// it needs can be evaluated, and neither resource goes over its limit. On the cpu, the
/// overhead of the charge counts as well.
pub proof fn law_charge_to_a_budget_succeeds_within_both_limits(
    b: BudgetView,
    ty: ContractCostType,
    iterations: u64,
    input: Option<u64>,
)
    requires
        b.wf(),
        b.can_charge(ty, iterations, input),
        b.enabled,
    ensures
        b.charge_result(ty, iterations, input) is Ok <==> {
            &&& BudgetView::input_fits(ty, input)
            &&& b.cpu_insns.model(ContractCostType::ChargeBudget).valid()
            &&& b.cpu_insns.model(ty).valid()
            &&& b.mem_bytes.model(ty).valid()
            &&& {
                ||| b.cpu_insns.total_count + overhead(b) + b.cpu_insns.amount(
                    ty,
                    iterations,
                    input,
                ) <= b.cpu_insns.limit
                ||| b.cpu_insns.limit == u64::MAX
            }
            &&& {
                ||| b.mem_bytes.total_count + b.mem_bytes.amount(ty, iterations, input)
                    <= b.mem_bytes.limit
                ||| b.mem_bytes.limit == u64::MAX
            }
        },
        b.charge_result(ty, iterations, input) == Err::<(), HostError>(
            HostError::input_mismatch(),
        ) <==> !BudgetView::input_fits(ty, input),
{
    let charge = ContractCostType::ChargeBudget;
    if b.cpu_insns.model(charge).valid() {
        lemma_amount_nonnegative(b.cpu_insns, charge, 1, None);
    }
    if b.cpu_insns.model(ty).valid() {
        lemma_amount_nonnegative(b.cpu_insns, ty, iterations, input);
    }
}

/// The cpu instructions that a charge costs by itself.
pub open spec fn overhead(b: BudgetView) -> int {
    b.cpu_insns.amount(ContractCostType::ChargeBudget, 1, None)
}

/// A charge that succeeds uses its amount and its overhead of the cpu, and its amount of
/// the memory; and it is noted in the tracker with all its iterations, its overhead as
/// one more charge.
pub proof fn law_successful_charge_is_accounted_for(
    b: BudgetView,
    ty: ContractCostType,
    iterations: u64,
    input: Option<u64>,
)
    requires
        b.wf(),
        b.can_charge(ty, iterations, input),
        b.enabled,
        b.charge_result(ty, iterations, input) is Ok,
    ensures
        ({
            let after = b.charged(ty, iterations, input);
            let charge = ContractCostType::ChargeBudget;
            &&& after.cpu_insns.total_count == saturate(
                b.cpu_insns.total_count + overhead(b) + b.cpu_insns.amount(ty, iterations, input),
            )
            &&& after.mem_bytes.total_count == saturate(
                b.mem_bytes.total_count + b.mem_bytes.amount(ty, iterations, input),
            )
            &&& ty != charge ==> {
                &&& after.cpu_insns.counts[ty.position()] == saturate(
                    b.cpu_insns.counts[ty.position()] + b.cpu_insns.amount(ty, iterations, input),
                )
                &&& after.cpu_insns.counts[charge.position()] == saturate(
                    b.cpu_insns.counts[charge.position()] + overhead(b),
                )
                &&& after.tracker[ty.position()].0 == saturate(
                    b.tracker[ty.position()].0 + iterations,
                )
                &&& after.tracker[charge.position()].0 == saturate(
                    b.tracker[charge.position()].0 + 1,
                )
                &&& b.mem_bytes.covers(charge) ==> after.mem_bytes.counts[charge.position()]
                    == b.mem_bytes.counts[charge.position()]
            }
            &&& input matches Some(x) ==> after.tracker[ty.position()].1 == Some(
                saturate(b.tracker[ty.position()].1->Some_0 + x * iterations),
            )
        }),
{
    let charge = ContractCostType::ChargeBudget;
    lemma_positions(ty, charge);
    lemma_amount_nonnegative(b.cpu_insns, charge, 1, None);
    lemma_amount_nonnegative(b.cpu_insns, ty, iterations, input);
    assert(b.tracker[ty.position()].1 is Some <==> ty.takes_input());
}

/// A charge that is refused on account of the cpu, or whose input does not fit, uses no
/// memory; and no charge changes a limit, a cost model, the fuel costs, or whether the
/// budget is enabled.
pub proof fn law_refused_charge_uses_no_memory(
    b: BudgetView,
    ty: ContractCostType,
    iterations: u64,
    input: Option<u64>,
)
    requires
        b.wf(),
        b.can_charge(ty, iterations, input),
    ensures
        ({
            let after = b.charged(ty, iterations, input);
            &&& b.enabled && b.cpu_result(ty, iterations, input) is Err ==> after.mem_bytes
                == b.mem_bytes
            &&& !BudgetView::input_fits(ty, input) ==> after.cpu_insns == b.cpu_insns
                && after.mem_bytes == b.mem_bytes
            &&& after.cpu_insns.limit == b.cpu_insns.limit
            &&& after.mem_bytes.limit == b.mem_bytes.limit
            &&& after.cpu_insns.cost_models == b.cpu_insns.cost_models
            &&& after.mem_bytes.cost_models == b.mem_bytes.cost_models
            &&& after.fuel_config == b.fuel_config
            &&& after.enabled == b.enabled
        }),
{
}

/// Where two charges for the same kind and size succeed, one batched charge for all
/// iterations succeeds as well. It uses the same memory and leaves the same entry in the
/// tracker; on the cpu it saves the overhead of one charge.
pub proof fn law_batching_saves_overhead_only(
    b: BudgetView,
    ty: ContractCostType,
    first: u64,
    second: u64,
    input: Option<u64>,
)
    requires
        b.wf(),
        b.cpu_insns.covers(ContractCostType::ChargeBudget),
        b.cpu_insns.covers(ty),
        b.mem_bytes.covers(ty),
        b.enabled,
        ty != ContractCostType::ChargeBudget,
        first + second <= u64::MAX,
        b.charge_result(ty, first, input) is Ok,
        b.charged(ty, first, input).charge_result(ty, second, input) is Ok,
    ensures
        ({
            let apart = b.charged(ty, first, input).charged(ty, second, input);
            let batched = b.charged(ty, (first + second) as u64, input);
            &&& b.charge_result(ty, (first + second) as u64, input) is Ok
            &&& apart.mem_bytes == batched.mem_bytes
            &&& apart.tracker[ty.position()] == batched.tracker[ty.position()]
            &&& apart.cpu_insns == batched.cpu_after_overhead()
        }),
{
    let charge = ContractCostType::ChargeBudget;
    let all = (first + second) as u64;
    lemma_positions(ty, charge);
    let cpu1 = b.cpu_after_overhead();
    law_charge_keeps_the_budget_sound(b, ty, first, input);
    law_total_stays_the_sum_of_the_counts(b.cpu_insns, charge, 1, None, 0);
    law_total_stays_the_sum_of_the_counts(cpu1, ty, first, input, 0);
    law_charges_add_up(b.mem_bytes, ty, first, second, input);
    law_charges_add_up(cpu1, ty, first, second, input);
    // the second overhead moves behind the work of both charges
    law_charges_commute(cpu1.charged(ty, first, input), charge, 1, None, ty, second, input);
    law_charge_to_a_budget_succeeds_within_both_limits(b, ty, first, input);
    law_charge_to_a_budget_succeeds_within_both_limits(
        b.charged(ty, first, input),
        ty,
        second,
        input,
    );
    law_charge_to_a_budget_succeeds_within_both_limits(b, ty, all, input);
    lemma_amount_nonnegative(b.cpu_insns, charge, 1, None);
    lemma_amount_nonnegative(b.cpu_insns, ty, all, input);
    law_successful_charge_is_accounted_for(b, ty, first, input);
    assert(b.tracker[ty.position()].1 is Some <==> ty.takes_input());
    if input is Some {
        let x = input->Some_0;
        assert(x * first + x * second == x * all) by (nonlinear_arith)
            requires
                all == first + second,
        ;
        assert(0 <= x * first && 0 <= x * second) by (nonlinear_arith);
    }
}

/// The tracker is for reporting only: with another one, a charge is answered the same and
/// uses the same.
pub proof fn law_tracker_does_not_limit(
    b: BudgetView,
    other: BudgetView,
    ty: ContractCostType,
    iterations: u64,
    input: Option<u64>,
)
    requires
        b.wf(),
        other.wf(),
        other == (BudgetView { tracker: other.tracker, ..b }),
        b.can_charge(ty, iterations, input),
    ensures
        other.can_charge(ty, iterations, input),
        other.charge_result(ty, iterations, input) == b.charge_result(ty, iterations, input),
        other.charged(ty, iterations, input).cpu_insns
            == b.charged(ty, iterations, input).cpu_insns,
        other.charged(ty, iterations, input).mem_bytes
            == b.charged(ty, iterations, input).mem_bytes,
{
}

/// Resetting the limits forgets every charge, in whatever order the limits are set; and
/// lifting both limits is the same as setting both to the greatest there is.
pub proof fn law_reset_limits_forgets_charges(
    b: BudgetView,
    ty: ContractCostType,
    iterations: u64,
    input: Option<u64>,
    cpu: u64,
    mem: u64,
)
    requires
        b.wf(),
        b.can_charge(ty, iterations, input),
    ensures
        b.charged(ty, iterations, input).with_cpu_limit(cpu).with_mem_limit(mem)
            == b.with_cpu_limit(cpu).with_mem_limit(mem),
        b.with_cpu_limit(cpu).with_mem_limit(mem) == b.with_mem_limit(mem).with_cpu_limit(cpu),
        b.with_cpu_limit(cpu).with_mem_limit(mem).cpu_insns.remaining() == cpu,
        b.with_cpu_limit(cpu).with_mem_limit(mem).mem_bytes.remaining() == mem,
{
    let after = b.charged(ty, iterations, input);
    assert(after.cpu_insns.emptied(cpu) =~~= b.cpu_insns.emptied(cpu));
    assert(after.mem_bytes.emptied(mem) =~~= b.mem_bytes.emptied(mem));
}

/// Under the greatest limits there are, no charge whose input fits is refused for going
/// over them.
pub proof fn law_unlimited_budget_refuses_nothing(
    b: BudgetView,
    ty: ContractCostType,
    iterations: u64,
    input: Option<u64>,
)
    requires
        b.wf(),
        b.can_charge(ty, iterations, input),
        b.cpu_insns.limit == u64::MAX,
        b.mem_bytes.limit == u64::MAX,
    ensures
        b.charge_result(ty, iterations, input) != Err::<(), HostError>(HostError::over_budget()),
{
}

/// With all terms of the cost models at zero, a charge uses nothing.
pub proof fn law_budget_with_free_models_is_not_used(
    b: BudgetView,
    ty: ContractCostType,
    iterations: u64,
    input: Option<u64>,
)
    requires
        b.wf(),
        b.cpu_insns.covers(ContractCostType::ChargeBudget),
        b.cpu_insns.covers(ty),
        b.mem_bytes.covers(ty),
    ensures
        ({
            let free = BudgetView {
                cpu_insns: b.cpu_insns.with_free_models(),
                mem_bytes: b.mem_bytes.with_free_models(),
                ..b
            };
            &&& free.charged(ty, iterations, input).cpu_insns == free.cpu_insns
            &&& free.charged(ty, iterations, input).mem_bytes == free.mem_bytes
        }),
{
    law_free_work_uses_nothing(b.cpu_insns, ContractCostType::ChargeBudget, 1, None);
    law_free_work_uses_nothing(b.cpu_insns, ty, iterations, input);
    law_free_work_uses_nothing(b.mem_bytes, ty, iterations, input);
}

/// The default budget is sound, has cost models that can be evaluated for all kinds of
/// work, and allows its limits in full; so every charge to it can be made, and none is
/// refused for its cost model.
pub proof fn law_default_budget_takes_every_charge(
    ty: ContractCostType,
    iterations: u64,
    input: Option<u64>,
)
    ensures
        ({
            let b = BudgetView::default_budget();
            &&& b.wf()
            &&& b.cpu_insns.covers(ty) && b.mem_bytes.covers(ty)
            &&& b.cpu_insns.model(ty) == default_cpu_model(ty)
            &&& b.mem_bytes.model(ty) == default_mem_model(ty)
            &&& b.cpu_insns.model(ty).valid() && b.mem_bytes.model(ty).valid()
            &&& b.cpu_insns.remaining() == DEFAULT_CPU_LIMIT
            &&& b.mem_bytes.remaining() == DEFAULT_MEM_LIMIT
            &&& b.can_charge(ty, iterations, input)
            &&& b.charge_result(ty, iterations, input) != Err::<(), HostError>(
                HostError::invalid_model(),
            )
        }),
{
    law_positions_number_the_kinds();
    let b = BudgetView::default_budget();
    lemma_sum_of_zeros(b.cpu_insns.counts);
    lemma_sum_of_zeros(b.mem_bytes.counts);
    let charge = ContractCostType::ChargeBudget;
    assert(b.cpu_insns.model(charge) == default_cpu_model(charge));
    assert(b.cpu_insns.model(ty) == default_cpu_model(ty));
    assert(b.mem_bytes.model(ty) == default_mem_model(ty));
}

/// Under the default cost models the two kinds of fuel are priced apart: a unit of memory
/// fuel is one byte and no instruction, a unit of cpu fuel is seven instructions and no
/// byte. Each of the two charges has its overhead on the cpu.
pub proof fn law_default_models_price_fuels_apart(b: BudgetView, cpu_fuel: u64, mem_fuel: u64)
    requires
        b.wf(),
        b.enabled,
        b.cpu_insns.cost_models == BudgetView::default_budget().cpu_insns.cost_models,
        b.mem_bytes.cost_models == BudgetView::default_budget().mem_bytes.cost_models,
        b.fuels_result(cpu_fuel, mem_fuel) is Ok,
    ensures
        b.fuels_applied(cpu_fuel, mem_fuel).cpu_insns.total_count == saturate(
            b.cpu_insns.total_count + 7 * cpu_fuel + 2 * 130,
        ),
        b.fuels_applied(cpu_fuel, mem_fuel).mem_bytes.total_count == saturate(
            b.mem_bytes.total_count + mem_fuel,
        ),
{
    let cpu_kind = ContractCostType::WasmInsnExec;
    let mem_kind = ContractCostType::WasmMemAlloc;
    let after_cpu = b.charged(cpu_kind, cpu_fuel, None);
    law_default_budget_takes_every_charge(cpu_kind, cpu_fuel, None);
    law_default_budget_takes_every_charge(mem_kind, mem_fuel, None);
    law_default_budget_takes_every_charge(ContractCostType::ChargeBudget, 1, None);
    law_charge_keeps_the_budget_sound(b, cpu_kind, cpu_fuel, None);
    law_refused_charge_uses_no_memory(b, cpu_kind, cpu_fuel, None);
    law_successful_charge_is_accounted_for(b, cpu_kind, cpu_fuel, None);
    law_successful_charge_is_accounted_for(after_cpu, mem_kind, mem_fuel, None);
    assert(b.mem_bytes.model(cpu_kind).cost(None) == 0);
    assert(b.mem_bytes.amount(cpu_kind, cpu_fuel, None) == 0 * cpu_fuel);
    assert(after_cpu.mem_bytes.model(mem_kind).cost(None) == 1);
    assert(after_cpu.mem_bytes.amount(mem_kind, mem_fuel, None) == 1 * mem_fuel);
}

/// A budget made from the default cost models and limits is the default budget.
pub proof fn law_default_budget_is_a_configuration(
    cpu_cost_params: ContractCostParams,
    mem_cost_params: ContractCostParams,
)
    requires
        cpu_cost_params.0@ == ContractCostType::all().map_values(
            |ty: ContractCostType| default_cpu_model(ty),
        ),
        mem_cost_params.0@ == ContractCostType::all().map_values(
            |ty: ContractCostType| default_mem_model(ty),
        ),
    ensures
        BudgetView::of_configs(
            DEFAULT_CPU_LIMIT,
            DEFAULT_MEM_LIMIT,
            cpu_cost_params,
            mem_cost_params,
        ) == BudgetView::default_budget(),
{
}

/// The "factory default" fuel costs are those that the interpreter starts from: with them
/// its own schedule is unchanged.
pub proof fn law_factory_fuel_costs_are_the_interpreters_own()
    ensures
        FuelSchedule::interpreter_default().with_config(FuelConfig::factory())
            == FuelSchedule::interpreter_default(),
{
}

} // verus!
