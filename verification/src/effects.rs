//! What the operations on a budget do, in terms of the numbers that it holds.
//!
//! The laws here name the entries of the tables by their positions and write every
//! amount out as arithmetic on the entries, the limits and the arguments. An amount that
//! a `u64` cannot hold is counted as the greatest `u64`.

use vstd::math::{max, min};
use vstd::prelude::*;

use crate::budget::BudgetView;
use crate::cost_model::{saturate, ContractCostParamEntry, ContractCostParams, HostCostModel};
use crate::cost_type::{lemma_positions, ContractCostType};
use crate::dimension::{sum, DimensionView};
use crate::error::{HostError, ScErrorCode, ScErrorType};
use crate::fuel::{FuelConfig, FuelSchedule};

verus! {

/// A cost model with no negative term evaluates to its constant term plus its linear term
/// times the input, or to its constant term alone without an input. A model with a
/// negative term is refused.
pub proof fn law_evaluation_is_linear(model: ContractCostParamEntry, x: u64)
    ensures
        model.const_term >= 0 && model.linear_term >= 0 ==> {
            &&& model.evaluation(None) is Ok
            &&& model.evaluation(Some(x)) is Ok
            &&& model.evaluation(None)->Ok_0 == model.const_term
            &&& model.evaluation(Some(x))->Ok_0 == min(
                u64::MAX as int,
                model.const_term + model.linear_term * x,
            )
        },
        model.const_term < 0 || model.linear_term < 0 ==> {
            &&& model.evaluation(None) == Err::<u64, HostError>(
                HostError { error_type: ScErrorType::Context, code: ScErrorCode::InvalidInput },
            )
            &&& model.evaluation(Some(x)) == model.evaluation(None)
        },
{
    let b = model.linear_term;
    if b >= 0 {
        assert(0 <= b * x) by (nonlinear_arith)
            requires
                0 <= b,
        ;
    }
}

/// Two cost models with the same terms evaluate to the same, and a larger input never
/// to less.
pub proof fn law_evaluation_grows_with_input(
    model: ContractCostParamEntry,
    same: ContractCostParamEntry,
    x: u64,
    y: u64,
)
    requires
        model.const_term == same.const_term,
        model.linear_term == same.linear_term,
        x <= y,
    ensures
        model.evaluation(Some(x)) == same.evaluation(Some(x)),
        model.evaluation(None) == same.evaluation(None),
        model.evaluation(Some(y)) is Ok <==> model.evaluation(Some(x)) is Ok,
        model.evaluation(Some(y)) is Ok ==> model.evaluation(None)->Ok_0
            <= model.evaluation(Some(x))->Ok_0 <= model.evaluation(Some(y))->Ok_0,
{
    law_evaluation_is_linear(model, x);
    law_evaluation_is_linear(model, y);
    let b = model.linear_term;
    if b >= 0 {
        assert(0 <= b * x <= b * y) by (nonlinear_arith)
            requires
                0 <= b,
                x <= y,
        ;
    }
}

/// The parts of which the price of work is made: the entry of its kind, the exact product
/// of its cost and the iterations, and what a `u64` can hold of an amount.
pub proof fn law_price_is_cost_times_iterations(
    dim: DimensionView,
    ty: ContractCostType,
    iterations: u64,
    x: u64,
    amount: int,
)
    ensures
        dim.covers(ty) <==> ty.position() < dim.cost_models.len(),
        dim.model(ty) == dim.cost_models[ty.position()],
        dim.model(ty).valid() <==> dim.cost_models[ty.position()].const_term >= 0
            && dim.cost_models[ty.position()].linear_term >= 0,
        dim.amount(ty, iterations, None) == dim.cost_models[ty.position()].const_term * iterations,
        dim.amount(ty, iterations, Some(x)) == (dim.cost_models[ty.position()].const_term
            + dim.cost_models[ty.position()].linear_term * x) * iterations,
        0 <= amount ==> saturate(amount) == min(u64::MAX as int, amount),
{
}

/// A charge adds the price of the work by the model of its own kind to the total and to
/// the count of the kind, and changes nothing else. It is refused exactly if the total is
/// then past the limit, or if the model has a negative term; in the latter case it uses
/// nothing.
pub proof fn law_charge_adds_the_price_by_its_own_model(
    dim: DimensionView,
    ty: ContractCostType,
    iterations: u64,
    input: Option<u64>,
)
    requires
        ty.position() < dim.cost_models.len(),
        dim.counts.len() == dim.cost_models.len(),
    ensures
        ({
            let p = ty.position();
            let a = dim.cost_models[p].const_term as int;
            let b = dim.cost_models[p].linear_term as int;
            let price = match input {
                Some(x) => (a + b * x) * iterations,
                None => a * iterations,
            };
            let after = dim.charged(ty, iterations, input);
            let answer = dim.charge_result(ty, iterations, input);
            &&& a >= 0 && b >= 0 ==> {
                &&& 0 <= price
                &&& after.total_count == min(u64::MAX as int, dim.total_count + price)
                &&& after.counts[p] == min(u64::MAX as int, dim.counts[p] + price)
                &&& answer is Ok <==> after.total_count <= dim.limit
                &&& answer is Err ==> answer == Err::<(), HostError>(
                    HostError { error_type: ScErrorType::Budget, code: ScErrorCode::ExceededLimit },
                )
            }
            &&& a < 0 || b < 0 ==> {
                &&& after.total_count == dim.total_count
                &&& after.counts[p] == dim.counts[p]
                &&& answer == Err::<(), HostError>(
                    HostError { error_type: ScErrorType::Context, code: ScErrorCode::InvalidInput },
                )
            }
            &&& after.limit == dim.limit
            &&& after.cost_models == dim.cost_models
            &&& after.counts.len() == dim.counts.len()
            &&& forall|i: int|
                0 <= i < dim.counts.len() && i != p ==> #[trigger] after.counts[i]
                    == dim.counts[i]
        }),
{
    lemma_positions(ty, ty);
    lemma_price(dim.cost_models[ty.position()], iterations, input);
}

/// The price of work depends on no entry but that of its kind: two resources that agree on
/// that entry, on the limit and on what was used, answer a charge the same and come out
/// of it with the same total and the same count of the kind.
pub proof fn law_charge_depends_on_no_other_model(
    one: DimensionView,
    two: DimensionView,
    ty: ContractCostType,
    iterations: u64,
    input: Option<u64>,
)
    requires
        ty.position() < one.cost_models.len(),
        ty.position() < two.cost_models.len(),
        one.counts.len() == one.cost_models.len(),
        two.counts.len() == two.cost_models.len(),
        one.cost_models[ty.position()] == two.cost_models[ty.position()],
        one.counts[ty.position()] == two.counts[ty.position()],
        one.total_count == two.total_count,
        one.limit == two.limit,
    ensures
        one.charged(ty, iterations, input).total_count == two.charged(
            ty,
            iterations,
            input,
        ).total_count,
        one.charged(ty, iterations, input).counts[ty.position()] == two.charged(
            ty,
            iterations,
            input,
        ).counts[ty.position()],
        one.charge_result(ty, iterations, input) == two.charge_result(ty, iterations, input),
{
    lemma_positions(ty, ty);
}

/// What is left of a limit is the limit less what was used, and zero where more was used.
pub proof fn law_remaining_is_the_limit_less_the_total(dim: DimensionView)
    ensures
        dim.remaining() == max(0, dim.limit - dim.total_count),
        dim.over_budget() <==> dim.total_count > dim.limit,
{
}

/// A reset of one resource sets the limit, puts the total and every count to zero, and
/// keeps the cost models. Zeroing the models keeps all else.
pub proof fn law_reset_zeroes_what_was_used(dim: DimensionView, limit: u64)
    ensures
        dim.emptied(limit).limit == limit,
        dim.emptied(limit).total_count == 0,
        dim.emptied(limit).cost_models == dim.cost_models,
        dim.emptied(limit).counts.len() == dim.counts.len(),
        forall|i: int|
            0 <= i < dim.counts.len() ==> #[trigger] dim.emptied(limit).counts[i] == 0,
        dim.emptied(limit).remaining() == limit,
        dim.with_free_models().limit == dim.limit,
        dim.with_free_models().total_count == dim.total_count,
        dim.with_free_models().counts == dim.counts,
        dim.with_free_models().cost_models.len() == dim.cost_models.len(),
        forall|i: int|
            0 <= i < dim.cost_models.len() ==> {
                let model = #[trigger] dim.with_free_models().cost_models[i];
                model.const_term == 0 && model.linear_term == 0 && model.ext
                    == dim.cost_models[i].ext
            },
{
}

/// A resource with given models has these models, a zero for each in its counts, and a
/// total and a limit of zero. The model of free work has two zero terms.
pub proof fn law_new_resource_is_unused(models: Seq<ContractCostParamEntry>)
    ensures
        DimensionView::of_models(models).cost_models == models,
        DimensionView::of_models(models).limit == 0,
        DimensionView::of_models(models).total_count == 0,
        DimensionView::of_models(models).counts.len() == models.len(),
        forall|i: int|
            0 <= i < models.len() ==> #[trigger] DimensionView::of_models(models).counts[i] == 0,
        ContractCostParamEntry::free().const_term == 0,
        ContractCostParamEntry::free().linear_term == 0,
{
}

/// A sound resource has a count for each model, and its total is the sum of its counts, as
/// far as a `u64` can hold it.
pub proof fn law_sound_resource_adds_up(dim: DimensionView)
    ensures
        dim.wf() <==> {
            &&& dim.counts.len() == dim.cost_models.len()
            &&& dim.total_count == min(
                u64::MAX as int,
                dim.counts.fold_left(0int, |total: int, count: u64| total + count),
            )
        },
{
    lemma_sum_is_fold(dim.counts);
}

/// The sum of the amounts, added one after the other.
proof fn lemma_sum_is_fold(amounts: Seq<u64>)
    ensures
        0 <= sum(amounts),
        sum(amounts) == amounts.fold_left(0int, |total: int, count: u64| total + count),
    decreases amounts.len(),
{
    reveal_with_fuel(Seq::fold_left, 2);
    if amounts.len() > 0 {
        lemma_sum_is_fold(amounts.drop_last());
    }
}

/// The exact price of work is its cost times the iterations, and is not negative if no
/// term is.
proof fn lemma_price(model: ContractCostParamEntry, iterations: u64, input: Option<u64>)
    ensures
        ({
            let a = model.const_term as int;
            let b = model.linear_term as int;
            let x = match input {
                Some(x) => x as int,
                None => 0,
            };
            &&& model.cost(input) == a + b * x
            &&& a >= 0 && b >= 0 ==> 0 <= (a + b * x) * iterations
        }),
{
    let a = model.const_term as int;
    let b = model.linear_term as int;
    let x = match input {
        Some(x) => x as int,
        None => 0,
    };
    assert(b * 0 == 0);
    if a >= 0 && b >= 0 {
        assert(0 <= (a + b * x) * iterations) by (nonlinear_arith)
            requires
                0 <= a,
                0 <= b,
                0 <= x,
        ;
    }
}

/// The cost models that a charge needs are there exactly if those are that are looked up
/// before the charge is refused: none for a disabled budget or an input that does not
/// fit, then that of the overhead, then that of the work on the cpu, then that of the
/// work in memory.
pub proof fn law_charge_needs_the_models_that_it_reaches(
    b: BudgetView,
    ty: ContractCostType,
    iterations: u64,
    input: Option<u64>,
)
    ensures
        ({
            let p = ty.position();
            let x = match input {
                Some(x) => x as int,
                None => 0,
            };
            let overhead = b.cpu_insns.cost_models[21];
            let work = b.cpu_insns.cost_models[p];
            let cpu1 = b.cpu_insns.total_count + overhead.const_term;
            let cpu2 = cpu1 + (work.const_term + work.linear_term * x) * iterations;
            let within1 = cpu1 <= b.cpu_insns.limit || b.cpu_insns.limit == u64::MAX;
            let within2 = cpu2 <= b.cpu_insns.limit || b.cpu_insns.limit == u64::MAX;
            b.can_charge(ty, iterations, input) <==> {
                ||| !b.enabled
                ||| input is Some != ty.takes_input()
                ||| {
                    &&& 21 < b.cpu_insns.cost_models.len()
                    &&& overhead.const_term >= 0 && overhead.linear_term >= 0 && within1 ==> {
                        &&& p < b.cpu_insns.cost_models.len()
                        &&& work.const_term >= 0 && work.linear_term >= 0 && within2 ==> p
                            < b.mem_bytes.cost_models.len()
                    }
                }
            }
        }),
{
    let charge = ContractCostType::ChargeBudget;
    lemma_positions(ty, charge);
    lemma_price(b.cpu_insns.cost_models[21], 1, None);
    lemma_price(b.cpu_insns.cost_models[ty.position()], iterations, input);
    assert(b.cpu_insns.cost_models[21].cost(None) * 1 == b.cpu_insns.cost_models[21].cost(None));
}

/// The answer to a charge. It succeeds if the budget is disabled. Otherwise its input has
/// to fit its kind; then the overhead of the charge, the work on the cpu and the work in
/// memory are looked at in turn, each by its own model: one with a negative term is
/// refused as invalid, and an exact total past the limit as exceeding it. A limit of the
/// greatest `u64` admits everything.
pub proof fn law_charge_answer(
    b: BudgetView,
    ty: ContractCostType,
    iterations: u64,
    input: Option<u64>,
)
    requires
        b.can_charge(ty, iterations, input),
        b.cpu_insns.counts.len() == b.cpu_insns.cost_models.len(),
        b.mem_bytes.counts.len() == b.mem_bytes.cost_models.len(),
    ensures
        ({
            let p = ty.position();
            let x = match input {
                Some(x) => x as int,
                None => 0,
            };
            let overhead = b.cpu_insns.cost_models[21];
            let cpu = b.cpu_insns.cost_models[p];
            let mem = b.mem_bytes.cost_models[p];
            let cpu1 = b.cpu_insns.total_count + overhead.const_term;
            let cpu2 = cpu1 + (cpu.const_term + cpu.linear_term * x) * iterations;
            let mem1 = b.mem_bytes.total_count + (mem.const_term + mem.linear_term * x)
                * iterations;
            let sound0 = overhead.const_term >= 0 && overhead.linear_term >= 0;
            let sound1 = cpu.const_term >= 0 && cpu.linear_term >= 0;
            let sound2 = mem.const_term >= 0 && mem.linear_term >= 0;
            let over1 = cpu1 > b.cpu_insns.limit && b.cpu_insns.limit < u64::MAX;
            let over2 = cpu2 > b.cpu_insns.limit && b.cpu_insns.limit < u64::MAX;
            let over3 = mem1 > b.mem_bytes.limit && b.mem_bytes.limit < u64::MAX;
            let fits = input is Some == ty.takes_input();
            let answer = b.charge_result(ty, iterations, input);
            &&& answer is Ok <==> {
                ||| !b.enabled
                ||| fits && sound0 && sound1 && sound2 && !over2 && !over3
            }
            &&& answer == Err::<(), HostError>(
                HostError { error_type: ScErrorType::Context, code: ScErrorCode::InternalError },
            ) <==> b.enabled && !fits
            &&& answer == Err::<(), HostError>(
                HostError { error_type: ScErrorType::Context, code: ScErrorCode::InvalidInput },
            ) <==> {
                &&& b.enabled && fits
                &&& !sound0 || (!over1 && (!sound1 || (!over2 && !sound2)))
            }
            &&& answer == Err::<(), HostError>(
                HostError { error_type: ScErrorType::Budget, code: ScErrorCode::ExceededLimit },
            ) <==> {
                &&& b.enabled && fits && sound0
                &&& over1 || (sound1 && (over2 || (sound2 && over3)))
            }
        }),
{
    let charge = ContractCostType::ChargeBudget;
    lemma_positions(ty, charge);
    lemma_price(b.cpu_insns.cost_models[21], 1, None);
    lemma_price(b.cpu_insns.cost_models[ty.position()], iterations, input);
    lemma_price(b.mem_bytes.cost_models[ty.position()], iterations, input);
    assert(b.cpu_insns.cost_models[21].cost(None) * 1 == b.cpu_insns.cost_models[21].cost(None));
}

/// What a charge uses. A disabled budget, an input that does not fit, and an overhead whose
/// model has a negative term use nothing. Otherwise the overhead is counted on the cpu;
/// unless it is refused, the work is counted on the cpu; and unless that is refused, the
/// work is counted in memory.
pub proof fn law_charge_uses(
    b: BudgetView,
    ty: ContractCostType,
    iterations: u64,
    input: Option<u64>,
)
    requires
        b.can_charge(ty, iterations, input),
        b.cpu_insns.counts.len() == b.cpu_insns.cost_models.len(),
        b.mem_bytes.counts.len() == b.mem_bytes.cost_models.len(),
    ensures
        ({
            let p = ty.position();
            let x = match input {
                Some(x) => x as int,
                None => 0,
            };
            let overhead = b.cpu_insns.cost_models[21];
            let cpu = b.cpu_insns.cost_models[p];
            let mem = b.mem_bytes.cost_models[p];
            let cpu_price = (cpu.const_term + cpu.linear_term * x) * iterations;
            let mem_price = (mem.const_term + mem.linear_term * x) * iterations;
            let cpu1 = b.cpu_insns.total_count + overhead.const_term;
            let within1 = cpu1 <= b.cpu_insns.limit || b.cpu_insns.limit == u64::MAX;
            let within2 = cpu1 + cpu_price <= b.cpu_insns.limit || b.cpu_insns.limit == u64::MAX;
            // whether each of the three is counted
            let counted0 = b.enabled && input is Some == ty.takes_input() && overhead.const_term
                >= 0 && overhead.linear_term >= 0;
            let counted1 = counted0 && within1 && cpu.const_term >= 0 && cpu.linear_term >= 0;
            let counted2 = counted1 && within2 && mem.const_term >= 0 && mem.linear_term >= 0;
            let used0 = if counted0 {
                overhead.const_term as int
            } else {
                0
            };
            let used1 = if counted1 {
                cpu_price
            } else {
                0
            };
            let used2 = if counted2 {
                mem_price
            } else {
                0
            };
            let after = b.charged(ty, iterations, input);
            &&& after.cpu_insns.total_count == min(
                u64::MAX as int,
                b.cpu_insns.total_count + used0 + used1,
            )
            &&& after.mem_bytes.total_count == min(
                u64::MAX as int,
                b.mem_bytes.total_count + used2,
            )
            &&& p < b.cpu_insns.counts.len() ==> after.cpu_insns.counts[p] == min(
                u64::MAX as int,
                b.cpu_insns.counts[p] + used1 + if p == 21 {
                    used0
                } else {
                    0
                },
            )
            &&& p != 21 && 21 < b.cpu_insns.counts.len() ==> after.cpu_insns.counts[21] == min(
                u64::MAX as int,
                b.cpu_insns.counts[21] + used0,
            )
            &&& p < b.mem_bytes.counts.len() ==> after.mem_bytes.counts[p] == min(
                u64::MAX as int,
                b.mem_bytes.counts[p] + used2,
            )
            &&& after.cpu_insns.counts.len() == b.cpu_insns.counts.len()
            &&& after.mem_bytes.counts.len() == b.mem_bytes.counts.len()
            &&& forall|i: int|
                0 <= i < b.cpu_insns.counts.len() && i != p && i != 21
                    ==> #[trigger] after.cpu_insns.counts[i] == b.cpu_insns.counts[i]
            &&& forall|i: int|
                0 <= i < b.mem_bytes.counts.len() && i != p
                    ==> #[trigger] after.mem_bytes.counts[i] == b.mem_bytes.counts[i]
            &&& after.cpu_insns.limit == b.cpu_insns.limit
            &&& after.mem_bytes.limit == b.mem_bytes.limit
            &&& after.cpu_insns.cost_models == b.cpu_insns.cost_models
            &&& after.mem_bytes.cost_models == b.mem_bytes.cost_models
            &&& after.enabled == b.enabled
            &&& after.fuel_config == b.fuel_config
        }),
{
    let charge = ContractCostType::ChargeBudget;
    lemma_positions(ty, charge);
    lemma_price(b.cpu_insns.cost_models[21], 1, None);
    lemma_price(b.cpu_insns.cost_models[ty.position()], iterations, input);
    lemma_price(b.mem_bytes.cost_models[ty.position()], iterations, input);
    assert(b.cpu_insns.cost_models[21].cost(None) * 1 == b.cpu_insns.cost_models[21].cost(None));
}

/// What a charge to an enabled budget leaves in the tracker, whether it succeeds or not: its
/// iterations; the size of each, where the kind has a total of sizes and the charge an
/// input; and, if the input fits the kind, one more charge for the overhead. A disabled
/// budget keeps its tracker.
pub proof fn law_charge_is_noted(
    b: BudgetView,
    ty: ContractCostType,
    iterations: u64,
    input: Option<u64>,
)
    requires
        b.tracker.len() == 31,
    ensures
        ({
            let p = ty.position();
            let fits = input is Some == ty.takes_input();
            let after = b.charged(ty, iterations, input).tracker;
            &&& after.len() == 31
            &&& !b.enabled ==> after == b.tracker
            &&& b.enabled ==> {
                &&& after[p].0 == min(
                    u64::MAX as int,
                    b.tracker[p].0 + iterations + if fits && p == 21 {
                        1int
                    } else {
                        0
                    },
                )
                &&& p != 21 ==> after[21].0 == min(
                    u64::MAX as int,
                    b.tracker[21].0 + if fits {
                        1int
                    } else {
                        0
                    },
                )
                &&& b.tracker[p].1 is Some && input is Some ==> {
                    &&& after[p].1 is Some
                    &&& after[p].1->Some_0 == min(
                        u64::MAX as int,
                        b.tracker[p].1->Some_0 + input->Some_0 * iterations,
                    )
                }
                &&& b.tracker[p].1 is None || input is None ==> after[p].1 == b.tracker[p].1
                &&& p != 21 ==> after[21].1 == b.tracker[21].1
                &&& forall|i: int|
                    0 <= i < 31 && i != p && i != 21 ==> #[trigger] after[i] == b.tracker[i]
            }
        }),
{
    lemma_positions(ty, ContractCostType::ChargeBudget);
    if input is Some {
        let x = input->Some_0;
        assert(0 <= x * iterations) by (nonlinear_arith);
    }
}

/// A charge of fuels is a charge of the cpu fuel and then, if that succeeds, a charge of the
/// memory fuel, each without an input; the answer is that of the last charge made.
pub proof fn law_fuels_are_two_charges(b: BudgetView, cpu_fuel: u64, mem_fuel: u64)
    ensures
        ({
            let between = b.charged(ContractCostType::WasmInsnExec, cpu_fuel, None);
            let first = b.charge_result(ContractCostType::WasmInsnExec, cpu_fuel, None);
            let second = between.charge_result(ContractCostType::WasmMemAlloc, mem_fuel, None);
            &&& first is Err ==> {
                &&& b.fuels_applied(cpu_fuel, mem_fuel) == between
                &&& b.fuels_result(cpu_fuel, mem_fuel) == first
            }
            &&& first is Ok ==> {
                &&& b.fuels_applied(cpu_fuel, mem_fuel) == between.charged(
                    ContractCostType::WasmMemAlloc,
                    mem_fuel,
                    None,
                )
                &&& b.fuels_result(cpu_fuel, mem_fuel) == second
            }
            &&& b.can_apply_fuels(cpu_fuel, mem_fuel) <==> {
                &&& b.can_charge(ContractCostType::WasmInsnExec, cpu_fuel, None)
                &&& first is Ok ==> between.can_charge(
                    ContractCostType::WasmMemAlloc,
                    mem_fuel,
                    None,
                )
            }
        }),
{
}

/// Where all models that it needs can be evaluated, a charge of fuels to an enabled budget
/// succeeds exactly if the cpu total plus both overheads plus the cpu price of both
/// fuels is within the cpu limit, and the memory total plus the memory price of both
/// fuels is within the memory limit. It then uses just that, and neither resource is over
/// budget; otherwise it is refused as exceeding a limit.
pub proof fn law_fuels_succeed_within_both_limits(b: BudgetView, cpu_fuel: u64, mem_fuel: u64)
    requires
        b.enabled,
        b.cpu_insns.counts.len() == b.cpu_insns.cost_models.len(),
        b.mem_bytes.counts.len() == b.mem_bytes.cost_models.len(),
        21 < b.cpu_insns.cost_models.len(),
        1 < b.mem_bytes.cost_models.len(),
        b.tracker.len() == 31,
        forall|i: int|
            i == 0 || i == 1 || i == 21 ==> (#[trigger] b.cpu_insns.cost_models[i]).const_term >= 0
                && b.cpu_insns.cost_models[i].linear_term >= 0,
        forall|i: int|
            i == 0 || i == 1 ==> (#[trigger] b.mem_bytes.cost_models[i]).const_term >= 0
                && b.mem_bytes.cost_models[i].linear_term >= 0,
    ensures
        ({
            let cpu_use = 2 * b.cpu_insns.cost_models[21].const_term
                + b.cpu_insns.cost_models[0].const_term * cpu_fuel
                + b.cpu_insns.cost_models[1].const_term * mem_fuel;
            let mem_use = b.mem_bytes.cost_models[0].const_term * cpu_fuel
                + b.mem_bytes.cost_models[1].const_term * mem_fuel;
            let after = b.fuels_applied(cpu_fuel, mem_fuel);
            let answer = b.fuels_result(cpu_fuel, mem_fuel);
            &&& answer is Ok <==> {
                &&& b.cpu_insns.total_count + cpu_use <= b.cpu_insns.limit || b.cpu_insns.limit
                    == u64::MAX
                &&& b.mem_bytes.total_count + mem_use <= b.mem_bytes.limit || b.mem_bytes.limit
                    == u64::MAX
            }
            &&& answer is Err ==> answer == Err::<(), HostError>(
                HostError { error_type: ScErrorType::Budget, code: ScErrorCode::ExceededLimit },
            )
            &&& answer is Ok ==> {
                &&& after.cpu_insns.total_count == min(
                    u64::MAX as int,
                    b.cpu_insns.total_count + cpu_use,
                )
                &&& after.mem_bytes.total_count == min(
                    u64::MAX as int,
                    b.mem_bytes.total_count + mem_use,
                )
                &&& after.cpu_insns.total_count <= after.cpu_insns.limit
                &&& after.mem_bytes.total_count <= after.mem_bytes.limit
                &&& after.tracker[0].0 == min(u64::MAX as int, b.tracker[0].0 + cpu_fuel)
                &&& after.tracker[1].0 == min(u64::MAX as int, b.tracker[1].0 + mem_fuel)
                &&& after.tracker[21].0 == min(u64::MAX as int, b.tracker[21].0 + 2)
            }
        }),
{
    let cpu_kind = ContractCostType::WasmInsnExec;
    let mem_kind = ContractCostType::WasmMemAlloc;
    let between = b.charged(cpu_kind, cpu_fuel, None);
    law_charge_needs_the_models_that_it_reaches(b, cpu_kind, cpu_fuel, None);
    law_charge_needs_the_models_that_it_reaches(between, mem_kind, mem_fuel, None);
    law_charge_answer(b, cpu_kind, cpu_fuel, None);
    law_charge_uses(b, cpu_kind, cpu_fuel, None);
    law_charge_is_noted(b, cpu_kind, cpu_fuel, None);
    law_charge_answer(between, mem_kind, mem_fuel, None);
    law_charge_uses(between, mem_kind, mem_fuel, None);
    law_charge_is_noted(between, mem_kind, mem_fuel, None);
    lemma_price(b.cpu_insns.cost_models[0], cpu_fuel, None);
    lemma_price(b.cpu_insns.cost_models[1], mem_fuel, None);
    lemma_price(b.mem_bytes.cost_models[0], cpu_fuel, None);
    lemma_price(b.mem_bytes.cost_models[1], mem_fuel, None);
}

/// What is left of a budget is granted as fuel in whole units. A unit of cpu fuel is worth
/// the linear term of the first cpu model, a unit of memory fuel the linear term of the
/// second memory model, each at least one. A negative term of the two is refused.
pub proof fn law_fuels_are_what_remains_in_units(b: BudgetView)
    ensures
        ({
            let cpu_term = b.cpu_insns.cost_models[0].linear_term;
            let mem_term = b.mem_bytes.cost_models[1].linear_term;
            &&& b.fuels() is Ok <==> cpu_term >= 0 && mem_term >= 0
            &&& b.fuels() is Err ==> b.fuels() == Err::<(u64, u64), HostError>(
                HostError { error_type: ScErrorType::Context, code: ScErrorCode::InvalidInput },
            )
            &&& b.fuels() is Ok ==> {
                &&& b.fuels()->Ok_0.0 == max(0, b.cpu_insns.limit - b.cpu_insns.total_count) / max(
                    1,
                    cpu_term as int,
                )
                &&& b.fuels()->Ok_0.1 == max(0, b.mem_bytes.limit - b.mem_bytes.total_count) / max(
                    1,
                    mem_term as int,
                )
            }
            &&& b.cpu_fuel() is Ok <==> cpu_term >= 0
            &&& b.mem_fuel() is Ok <==> mem_term >= 0
        }),
{
    lemma_quotient(
        b.cpu_insns.remaining() as int,
        max(1, b.cpu_insns.cost_models[0].linear_term as int),
    );
    lemma_quotient(
        b.mem_bytes.remaining() as int,
        max(1, b.mem_bytes.cost_models[1].linear_term as int),
    );
}

/// A quotient of numbers that are not negative is at most its dividend.
proof fn lemma_quotient(n: int, d: int)
    requires
        0 <= n <= u64::MAX,
        1 <= d,
    ensures
        0 <= n / d <= u64::MAX,
{
    assert(0 <= n / d <= n) by (nonlinear_arith)
        requires
            0 <= n,
            1 <= d,
    ;
}

/// A budget made from a configuration has the given limits and cost models, nothing used,
/// an empty tracker and the calibrated fuel costs, and is enabled.
pub proof fn law_configured_budget_is_as_given(
    cpu_limit: u64,
    mem_limit: u64,
    cpu_cost_params: ContractCostParams,
    mem_cost_params: ContractCostParams,
)
    ensures
        ({
            let b = BudgetView::of_configs(cpu_limit, mem_limit, cpu_cost_params, mem_cost_params);
            &&& b.cpu_insns.limit == cpu_limit
            &&& b.mem_bytes.limit == mem_limit
            &&& b.cpu_insns.cost_models == cpu_cost_params.0@
            &&& b.mem_bytes.cost_models == mem_cost_params.0@
            &&& b.cpu_insns.total_count == 0
            &&& b.mem_bytes.total_count == 0
            &&& b.cpu_insns.remaining() == cpu_limit
            &&& b.mem_bytes.remaining() == mem_limit
            &&& b.cpu_insns.counts.len() == cpu_cost_params.0@.len()
            &&& b.mem_bytes.counts.len() == mem_cost_params.0@.len()
            &&& forall|i: int|
                0 <= i < b.cpu_insns.counts.len() ==> #[trigger] b.cpu_insns.counts[i] == 0
            &&& forall|i: int|
                0 <= i < b.mem_bytes.counts.len() ==> #[trigger] b.mem_bytes.counts[i] == 0
            &&& b.tracker == BudgetView::empty_tracker()
            &&& b.enabled
            &&& b.fuel_config == (FuelConfig { base: 1, entity: 2, load: 1, store: 1, call: 49 })
        }),
{
}

/// The tracker of a budget to which nothing was charged has zeros for the thirty-one kinds of
/// work, and a total of sizes, of zero, for the twelve that have a size.
pub proof fn law_empty_tracker_holds_zeros()
    ensures
        BudgetView::empty_tracker().len() == 31,
        forall|i: int|
            0 <= i < 31 ==> (#[trigger] BudgetView::empty_tracker()[i]) == (
                0u64,
                if 2 <= i <= 4 || 8 <= i <= 10 || 15 <= i <= 19 || i == 22 {
                    Some(0u64)
                } else {
                    None
                },
            ),
{
}

/// The kinds of work with a size, and the positions of the kinds that the budget itself
/// speaks of.
pub proof fn law_kinds_with_a_size(ty: ContractCostType)
    ensures
        ty.takes_input() <==> {
            let p = ty.position();
            2 <= p <= 4 || 8 <= p <= 10 || 15 <= p <= 19 || p == 22
        },
        ContractCostType::WasmInsnExec.position() == 0,
        ContractCostType::WasmMemAlloc.position() == 1,
        ContractCostType::ChargeBudget.position() == 21,
{
}

/// A sound budget has two sound resources and, in its tracker, a total of sizes for exactly
/// the kinds of work that have a size.
pub proof fn law_sound_budget(b: BudgetView)
    ensures
        b.wf() <==> {
            &&& b.cpu_insns.wf()
            &&& b.mem_bytes.wf()
            &&& b.tracker.len() == 31
            &&& forall|i: int|
                0 <= i < 31 ==> ((#[trigger] b.tracker[i]).1 is Some <==> 2 <= i <= 4 || 8 <= i
                    <= 10 || 15 <= i <= 19 || i == 22)
        },
{
    let all = ContractCostType::all();
    if b.wf() {
        assert forall|i: int| 0 <= i < 31 implies ((#[trigger] b.tracker[i]).1 is Some <==> 2 <= i
            <= 4 || 8 <= i <= 10 || 15 <= i <= 19 || i == 22) by {
            assert(all[i].position() == i);
            law_kinds_with_a_size(all[i]);
        }
    }
    if b.tracker.len() == 31 && forall|i: int|
        0 <= i < 31 ==> ((#[trigger] b.tracker[i]).1 is Some <==> 2 <= i <= 4 || 8 <= i <= 10
            || 15 <= i <= 19 || i == 22) {
        assert forall|ty: ContractCostType|
            b.tracker[#[trigger] ty.position()].1 is Some <==> ty.takes_input() by {
            lemma_positions(ty, ty);
            law_kinds_with_a_size(ty);
        }
    }
}

/// Disabling or enabling a budget changes nothing else.
pub proof fn law_enabling_changes_nothing_else(b: BudgetView, enabled: bool)
    ensures
        b.with_enabled(enabled).enabled == enabled,
        b.with_enabled(enabled).cpu_insns == b.cpu_insns,
        b.with_enabled(enabled).mem_bytes == b.mem_bytes,
        b.with_enabled(enabled).tracker == b.tracker,
        b.with_enabled(enabled).fuel_config == b.fuel_config,
{
}

/// Setting the limit of one resource forgets what was used of it and empties the tracker; the
/// other resource, the cost models, the fuel costs, and whether the budget is enabled stay
/// as they are. Emptying the tracker alone changes neither resource.
pub proof fn law_setting_a_limit_touches_one_resource(b: BudgetView, limit: u64)
    ensures
        ({
            let after = b.with_cpu_limit(limit);
            &&& after.cpu_insns.limit == limit
            &&& after.cpu_insns.total_count == 0
            &&& after.cpu_insns.cost_models == b.cpu_insns.cost_models
            &&& after.cpu_insns.counts.len() == b.cpu_insns.counts.len()
            &&& forall|i: int|
                0 <= i < b.cpu_insns.counts.len() ==> #[trigger] after.cpu_insns.counts[i] == 0
            &&& after.mem_bytes == b.mem_bytes
            &&& after.tracker == BudgetView::empty_tracker()
            &&& after.enabled == b.enabled
            &&& after.fuel_config == b.fuel_config
        }),
        ({
            let after = b.with_mem_limit(limit);
            &&& after.mem_bytes.limit == limit
            &&& after.mem_bytes.total_count == 0
            &&& after.mem_bytes.cost_models == b.mem_bytes.cost_models
            &&& after.mem_bytes.counts.len() == b.mem_bytes.counts.len()
            &&& forall|i: int|
                0 <= i < b.mem_bytes.counts.len() ==> #[trigger] after.mem_bytes.counts[i] == 0
            &&& after.cpu_insns == b.cpu_insns
            &&& after.tracker == BudgetView::empty_tracker()
            &&& after.enabled == b.enabled
            &&& after.fuel_config == b.fuel_config
        }),
        ({
            let after = b.with_empty_tracker();
            &&& after.tracker == BudgetView::empty_tracker()
            &&& after.cpu_insns == b.cpu_insns
            &&& after.mem_bytes == b.mem_bytes
            &&& after.enabled == b.enabled
            &&& after.fuel_config == b.fuel_config
        }),
{
}

/// The default budget has limits of forty million instructions and of fifty times 1024 times
/// 1024 bytes, nothing used, an empty tracker and the calibrated fuel costs, and is
/// enabled. Its cost models are the calibrated ones.
pub proof fn law_default_budget_in_numbers()
    ensures
        ({
            let b = BudgetView::default_budget();
            let cpu_const: Seq<int> = seq![
                7, 0, 2350, 23, 43, 928, 19, 134, 587, 870, 1725, 25551, 53, 5,
                4050, 369634, 0, 124, 600447, 600447, 5926, 130, 3322, 56525, 250,
                2319640, 735, 1224, 1347, 5350, 538,
            ];
            let cpu_linear: Seq<int> = seq![
                0, 0, 0, 0, 1, 0, 0, 0, 1, 0, 33, 0, 0, 0, 0, 21, 0, 0, 484, 484, 0,
                0, 46, 0, 0, 0, 0, 0, 0, 0, 0,
            ];
            let mem_const: Seq<int> = seq![
                0, 1, 8, 0, 0, 0, 0, 0, 9, 4, 40, 0, 0, 0, 472, 0, 0, 0, 117871,
                117871, 486, 0, 40, 0, 0, 181, 119, 119, 119, 119, 119,
            ];
            let mem_linear: Seq<int> = seq![
                0, 0, 1, 0, 0, 0, 0, 0, 3, 1, 0, 0, 0, 0, 0, 0, 0, 0, 40, 40, 0, 0,
                0, 0, 0, 0, 0, 0, 0, 0, 0,
            ];
            &&& b.cpu_insns.limit == 40_000_000
            &&& b.mem_bytes.limit == 50 * 1024 * 1024
            &&& b.cpu_insns.total_count == 0
            &&& b.mem_bytes.total_count == 0
            &&& b.cpu_insns.counts.len() == 31
            &&& b.mem_bytes.counts.len() == 31
            &&& forall|i: int| 0 <= i < 31 ==> #[trigger] b.cpu_insns.counts[i] == 0
            &&& forall|i: int| 0 <= i < 31 ==> #[trigger] b.mem_bytes.counts[i] == 0
            &&& b.cpu_insns.cost_models.len() == 31
            &&& b.mem_bytes.cost_models.len() == 31
            &&& forall|i: int|
                0 <= i < 31 ==> (#[trigger] b.cpu_insns.cost_models[i]).const_term == cpu_const[i]
                    && b.cpu_insns.cost_models[i].linear_term == cpu_linear[i]
            &&& forall|i: int|
                0 <= i < 31 ==> (#[trigger] b.mem_bytes.cost_models[i]).const_term == mem_const[i]
                    && b.mem_bytes.cost_models[i].linear_term == mem_linear[i]
            &&& b.tracker == BudgetView::empty_tracker()
            &&& b.enabled
            &&& b.fuel_config == (FuelConfig { base: 1, entity: 2, load: 1, store: 1, call: 49 })
        }),
{
}

/// A fuel schedule made for the interpreter has the configured costs in their own entries; its
/// other entries are those that the interpreter starts from: a fuel for eight values or
/// for 64 bytes. The factory costs are all one.
pub proof fn law_fuel_schedule_holds_the_configured_costs(config: FuelConfig)
    ensures
        ({
            let schedule = FuelSchedule::interpreter_default().with_config(config);
            &&& schedule.config.base == config.base
            &&& schedule.config.entity == config.entity
            &&& schedule.config.load == config.load
            &&& schedule.config.store == config.store
            &&& schedule.config.call == config.call
            &&& schedule.branch_kept_per_fuel == 8
            &&& schedule.func_locals_per_fuel == 8
            &&& schedule.memory_bytes_per_fuel == 64
            &&& schedule.table_elements_per_fuel == 8
        }),
        FuelSchedule::interpreter_default().config == (FuelConfig {
            base: 1,
            entity: 1,
            load: 1,
            store: 1,
            call: 1,
        }),
        FuelConfig::factory() == (FuelConfig { base: 1, entity: 1, load: 1, store: 1, call: 1 }),
        FuelConfig::calibrated() == (FuelConfig {
            base: 1,
            entity: 2,
            load: 1,
            store: 1,
            call: 49,
        }),
{
}

/// Putting costs into any fuel schedule replaces its configurable entries and keeps the others.
pub proof fn law_configuring_keeps_the_other_entries(schedule: FuelSchedule, config: FuelConfig)
    ensures
        schedule.with_config(config).config == config,
        schedule.with_config(config).branch_kept_per_fuel == schedule.branch_kept_per_fuel,
        schedule.with_config(config).func_locals_per_fuel == schedule.func_locals_per_fuel,
        schedule.with_config(config).memory_bytes_per_fuel == schedule.memory_bytes_per_fuel,
        schedule.with_config(config).table_elements_per_fuel == schedule.table_elements_per_fuel,
{
}

} // verus!
