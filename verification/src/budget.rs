//! The budget of the host: its two resources and what was charged to them.

use vstd::math::max;
use vstd::prelude::*;

use crate::cost_model::{saturate, saturating_product, ContractCostParams};
use crate::cost_type::{law_positions_number_the_kinds, ContractCostType, COST_TYPE_COUNT};
use crate::dimension::{BudgetDimension, DimensionView};
use crate::effects::law_fuels_are_what_remains_in_units;
use crate::error::{HostError, ScErrorCode, ScErrorType};
use crate::fuel::{fuel_schedule, FuelConfig, FuelSchedule};
use crate::schedule::{
    default_cpu_model, default_mem_model, set_default_cpu_model, set_default_mem_model,
    DEFAULT_CPU_LIMIT, DEFAULT_MEM_LIMIT,
};

pub mod report;

verus! {

/// What a [`Budget`] holds.
#[verifier::ext_equal]
pub struct BudgetView {
    pub cpu_insns: DimensionView,
    pub mem_bytes: DimensionView,
    /// For each kind of work, by its position, how often it was charged and the
    /// total of the sizes of that work, where work of the kind has a size.
    pub tracker: Seq<(u64, Option<u64>)>,
    /// Whether charges count.
    pub enabled: bool,
    pub fuel_config: FuelConfig,
}

impl BudgetView {
    /// Both resources are sound, and the tracker has an entry for each kind of work,
    /// with a total of sizes exactly for those kinds whose work has a size.
    pub open spec fn wf(self) -> bool {
        &&& self.cpu_insns.wf()
        &&& self.mem_bytes.wf()
        &&& self.tracker.len() == COST_TYPE_COUNT
        &&& forall|ty: ContractCostType|
            self.tracker[#[trigger] ty.position()].1 is Some <==> ty.takes_input()
    }

    /// A tracker in which nothing was charged.
    pub open spec fn empty_tracker() -> Seq<(u64, Option<u64>)> {
        Seq::new(
            COST_TYPE_COUNT as nat,
            |i: int|
                if ContractCostType::all()[i].takes_input() {
                    (0u64, Some(0u64))
                } else {
                    (0u64, None)
                },
        )
    }

    /// A budget with the given cost models and limits, of which nothing was used.
    pub open spec fn of_configs(
        cpu_limit: u64,
        mem_limit: u64,
        cpu_cost_params: ContractCostParams,
        mem_cost_params: ContractCostParams,
    ) -> BudgetView {
        BudgetView {
            cpu_insns: DimensionView::of_models(cpu_cost_params.0@).emptied(cpu_limit),
            mem_bytes: DimensionView::of_models(mem_cost_params.0@).emptied(mem_limit),
            tracker: Self::empty_tracker(),
            enabled: true,
            fuel_config: FuelConfig::calibrated(),
        }
    }

    /// The budget with the default cost models and limits, of which nothing was used.
    pub open spec fn default_budget() -> BudgetView {
        BudgetView {
            cpu_insns: DimensionView::of_models(
                ContractCostType::all().map_values(|ty: ContractCostType| default_cpu_model(ty)),
            ).emptied(DEFAULT_CPU_LIMIT),
            mem_bytes: DimensionView::of_models(
                ContractCostType::all().map_values(|ty: ContractCostType| default_mem_model(ty)),
            ).emptied(DEFAULT_MEM_LIMIT),
            tracker: Self::empty_tracker(),
            enabled: true,
            fuel_config: FuelConfig::calibrated(),
        }
    }

    /// The tracker after a charge was noted: each piece of work counts, and so does
    /// the size of each where work of the kind has a size.
    pub open spec fn noted(
        self,
        ty: ContractCostType,
        iterations: u64,
        input: Option<u64>,
    ) -> BudgetView {
        let (count, total) = self.tracker[ty.position()];
        let new_total = match (total, input) {
            (Some(t), Some(i)) => Some(saturate(t + i * iterations)),
            _ => total,
        };
        BudgetView {
            tracker: self.tracker.update(
                ty.position(),
                (saturate(count + iterations), new_total),
            ),
            ..self
        }
    }

    /// Cpu use after the overhead of a charge: charging the budget is itself work.
    pub open spec fn cpu_after_overhead(self) -> DimensionView {
        self.cpu_insns.charged(ContractCostType::ChargeBudget, 1, None)
    }

    /// Whether the overhead of a charge, and then the cpu use of the work itself, are
    /// within the limit.
    pub open spec fn cpu_result(
        self,
        ty: ContractCostType,
        iterations: u64,
        input: Option<u64>,
    ) -> Result<(), HostError> {
        match self.cpu_insns.charge_result(ContractCostType::ChargeBudget, 1, None) {
            Ok(_) => self.cpu_after_overhead().charge_result(ty, iterations, input),
            Err(error) => Err(error),
        }
    }

    /// The resources after a charge: first the cpu use of the overhead, then the cpu
    /// use of the work, then its memory use. The first of these that is refused is the
    /// last one that is counted.
    pub open spec fn metered(
        self,
        ty: ContractCostType,
        iterations: u64,
        input: Option<u64>,
    ) -> BudgetView {
        let overhead = self.cpu_insns.charge_result(ContractCostType::ChargeBudget, 1, None);
        BudgetView {
            cpu_insns: if overhead is Ok {
                self.cpu_after_overhead().charged(ty, iterations, input)
            } else {
                self.cpu_after_overhead()
            },
            mem_bytes: if self.cpu_result(ty, iterations, input) is Ok {
                self.mem_bytes.charged(ty, iterations, input)
            } else {
                self.mem_bytes
            },
            ..self
        }
    }

    /// Whether a charge comes with an input exactly if work of its kind has a size.
    pub open spec fn input_fits(ty: ContractCostType, input: Option<u64>) -> bool {
        input is Some <==> ty.takes_input()
    }

    /// The cost models that a charge needs are there.
    pub open spec fn can_charge(
        self,
        ty: ContractCostType,
        iterations: u64,
        input: Option<u64>,
    ) -> bool {
        self.enabled && Self::input_fits(ty, input) ==> {
            &&& self.cpu_insns.covers(ContractCostType::ChargeBudget)
            &&& self.cpu_insns.charge_result(ContractCostType::ChargeBudget, 1, None) is Ok
                ==> self.cpu_insns.covers(ty)
            &&& self.cpu_result(ty, iterations, input) is Ok ==> self.mem_bytes.covers(ty)
        }
    }

    /// The state after a charge. A charge to a disabled budget leaves no trace; one
    /// whose input does not fit is noted in the tracker and uses nothing.
    pub open spec fn charged(
        self,
        ty: ContractCostType,
        iterations: u64,
        input: Option<u64>,
    ) -> BudgetView {
        if !self.enabled {
            self
        } else if !Self::input_fits(ty, input) {
            self.noted(ty, iterations, input)
        } else {
            self.noted(ty, iterations, input).noted(
                ContractCostType::ChargeBudget,
                1,
                None,
            ).metered(ty, iterations, input)
        }
    }

    /// The answer to a charge.
    pub open spec fn charge_result(
        self,
        ty: ContractCostType,
        iterations: u64,
        input: Option<u64>,
    ) -> Result<(), HostError> {
        if !self.enabled {
            Ok(())
        } else if !Self::input_fits(ty, input) {
            Err(HostError::input_mismatch())
        } else {
            match self.cpu_result(ty, iterations, input) {
                Ok(_) => self.mem_bytes.charge_result(ty, iterations, input),
                Err(error) => Err(error),
            }
        }
    }

    /// The state after units of cpu fuel and of memory fuel were charged. Where the
    /// first charge is refused, the second is not made.
    pub open spec fn fuels_applied(self, cpu_fuel: u64, mem_fuel: u64) -> BudgetView {
        let after_cpu = self.charged(ContractCostType::WasmInsnExec, cpu_fuel, None);
        if self.charge_result(ContractCostType::WasmInsnExec, cpu_fuel, None) is Ok {
            after_cpu.charged(ContractCostType::WasmMemAlloc, mem_fuel, None)
        } else {
            after_cpu
        }
    }

    /// The answer to a charge of units of cpu fuel and of memory fuel.
    pub open spec fn fuels_result(self, cpu_fuel: u64, mem_fuel: u64) -> Result<(), HostError> {
        let after_cpu = self.charged(ContractCostType::WasmInsnExec, cpu_fuel, None);
        match self.charge_result(ContractCostType::WasmInsnExec, cpu_fuel, None) {
            Ok(_) => after_cpu.charge_result(ContractCostType::WasmMemAlloc, mem_fuel, None),
            Err(error) => Err(error),
        }
    }

    /// The cost models that a charge of fuels needs are there.
    pub open spec fn can_apply_fuels(self, cpu_fuel: u64, mem_fuel: u64) -> bool {
        let after_cpu = self.charged(ContractCostType::WasmInsnExec, cpu_fuel, None);
        &&& self.can_charge(ContractCostType::WasmInsnExec, cpu_fuel, None)
        &&& self.charge_result(ContractCostType::WasmInsnExec, cpu_fuel, None) is Ok
            ==> after_cpu.can_charge(ContractCostType::WasmMemAlloc, mem_fuel, None)
    }

    /// The cpu instructions left, in whole units of fuel.
    pub open spec fn cpu_fuel(self) -> Result<u64, HostError> {
        self.cpu_insns.remaining_as_fuel(ContractCostType::WasmInsnExec)
    }

    /// The memory bytes left, in whole units of memory fuel.
    pub open spec fn mem_fuel(self) -> Result<u64, HostError> {
        self.mem_bytes.remaining_as_fuel(ContractCostType::WasmMemAlloc)
    }

    /// What is left of both resources, in units of fuel.
    pub open spec fn fuels(self) -> Result<(u64, u64), HostError> {
        match (self.cpu_fuel(), self.mem_fuel()) {
            (Ok(cpu_fuel), Ok(mem_fuel)) => Ok((cpu_fuel, mem_fuel)),
            _ => Err(HostError::invalid_model()),
        }
    }

    /// The state in which charges count or do not.
    pub open spec fn with_enabled(self, enabled: bool) -> BudgetView {
        BudgetView { enabled, ..self }
    }

    /// The state with an empty tracker.
    pub open spec fn with_empty_tracker(self) -> BudgetView {
        BudgetView { tracker: Self::empty_tracker(), ..self }
    }

    /// The state with no cpu instructions used, a new limit on them, and an empty
    /// tracker.
    pub open spec fn with_cpu_limit(self, limit: u64) -> BudgetView {
        BudgetView {
            cpu_insns: self.cpu_insns.emptied(limit),
            ..self
        }.with_empty_tracker()
    }

    /// The state with no memory bytes used, a new limit on them, and an empty tracker.
    pub open spec fn with_mem_limit(self, limit: u64) -> BudgetView {
        BudgetView {
            mem_bytes: self.mem_bytes.emptied(limit),
            ..self
        }.with_empty_tracker()
    }
}

/// The state of a budget.
#[derive(Clone, PartialEq, Eq, PartialOrd, Ord, Hash)]
pub struct BudgetImpl {
    cpu_insns: BudgetDimension,
    mem_bytes: BudgetDimension,
    /// Tracks the `(sum_of_iterations, total_input)` for each kind of work, for purposes
    /// of calibration and reporting; not used for budget-limiting per se.
    tracker: Vec<(u64, Option<u64>)>,
    enabled: bool,
    fuel_config: FuelConfig,
}

impl View for BudgetImpl {
    type V = BudgetView;

    closed spec fn view(&self) -> BudgetView {
        BudgetView {
            cpu_insns: self.cpu_insns@,
            mem_bytes: self.mem_bytes@,
            tracker: self.tracker@,
            enabled: self.enabled,
            fuel_config: self.fuel_config,
        }
    }
}

impl BudgetImpl {
    /// Initializes the budget from network configuration settings.
    pub fn from_configs(
        cpu_limit: u64,
        mem_limit: u64,
        cpu_cost_params: ContractCostParams,
        mem_cost_params: ContractCostParams,
    ) -> (b: Self)
        ensures
            b@.wf(),
            b@ == BudgetView::of_configs(cpu_limit, mem_limit, cpu_cost_params, mem_cost_params),
            b@.cpu_insns.limit == cpu_limit,
            b@.mem_bytes.limit == mem_limit,
            b@.cpu_insns.cost_models == cpu_cost_params.0@,
            b@.mem_bytes.cost_models == mem_cost_params.0@,
            b@.cpu_insns.total_count == 0,
            b@.mem_bytes.total_count == 0,
    {
        let mut b = BudgetImpl {
            cpu_insns: BudgetDimension::from_config(cpu_cost_params),
            mem_bytes: BudgetDimension::from_config(mem_cost_params),
            tracker: Self::blank_tracker(),
            enabled: true,
            fuel_config: FuelConfig::default(),
        };
        b.init_tracker();
        b.cpu_insns.reset(cpu_limit);
        b.mem_bytes.reset(mem_limit);
        proof {
            law_positions_number_the_kinds();
            assert(b@ =~~= BudgetView::of_configs(
                cpu_limit,
                mem_limit,
                cpu_cost_params,
                mem_cost_params,
            ));
        }
        b
    }

    /// A tracker in which no kind of work has been charged, nor has a size.
    fn blank_tracker() -> (tracker: Vec<(u64, Option<u64>)>)
        ensures
            tracker@ == Seq::new(COST_TYPE_COUNT as nat, |i: int| (0u64, None::<u64>)),
    {
        let mut tracker: Vec<(u64, Option<u64>)> = Vec::new();
        let mut i: usize = 0;
        while i < COST_TYPE_COUNT
            invariant
                i <= COST_TYPE_COUNT,
                tracker@ == Seq::new(i as nat, |j: int| (0u64, None::<u64>)),
            decreases COST_TYPE_COUNT - i,
        {
            tracker.push((0, None));
            i = i + 1;
        }
        tracker
    }

    /// Defines what inputs actually mean: for each kind of work that has a size, the
    /// total of the sizes starts at zero; for the others it is left as it is.
    fn init_tracker(&mut self)
        requires
            old(self)@.tracker.len() == COST_TYPE_COUNT,
        ensures
            final(self)@ == (BudgetView {
                tracker: Seq::new(
                    COST_TYPE_COUNT as nat,
                    |i: int|
                        if ContractCostType::all()[i].takes_input() {
                            (old(self)@.tracker[i].0, Some(0u64))
                        } else {
                            old(self)@.tracker[i]
                        },
                ),
                ..old(self)@
            }),
    {
        let variants = ContractCostType::variants();
        let mut i: usize = 0;
        while i < COST_TYPE_COUNT
            invariant
                i <= COST_TYPE_COUNT,
                variants@ == ContractCostType::all(),
                old(self)@.tracker.len() == COST_TYPE_COUNT,
                self@ == (BudgetView { tracker: self@.tracker, ..old(self)@ }),
                self@.tracker.len() == COST_TYPE_COUNT,
                forall|j: int|
                    0 <= j < i ==> #[trigger] self@.tracker[j] == (
                    if ContractCostType::all()[j].takes_input() {
                        (old(self)@.tracker[j].0, Some(0u64))
                    } else {
                        old(self)@.tracker[j]
                    }),
                forall|j: int|
                    i <= j < COST_TYPE_COUNT ==> #[trigger] self@.tracker[j]
                        == old(self)@.tracker[j],
            decreases COST_TYPE_COUNT - i,
        {
            if variants[i].has_input() {
                let count: u64 = self.tracker[i].0;
                self.tracker.set(i, (count, Some(0)));
            }
            i = i + 1;
        }
    }
}

/// Default settings for local/sandbox testing only. The actual operations will use
/// parameters read on-chain from network configuration via
/// [`from_configs`](Budget::from_configs).
impl Default for BudgetImpl {
    fn default() -> (b: BudgetImpl)
        ensures
            b@.wf(),
            b@ == BudgetView::default_budget(),
    {
        let mut b = BudgetImpl {
            cpu_insns: BudgetDimension::new(),
            mem_bytes: BudgetDimension::new(),
            tracker: Self::blank_tracker(),
            enabled: true,
            fuel_config: FuelConfig::default(),
        };
        b.init_tracker();
        let variants = ContractCostType::variants();
        let ghost start = b@;
        let mut i: usize = 0;
        while i < COST_TYPE_COUNT
            invariant
                i <= COST_TYPE_COUNT,
                forall|j: int|
                    0 <= j < COST_TYPE_COUNT ==> (#[trigger] variants@[j]).position() == j,
                b@.cpu_insns.cost_models.len() == COST_TYPE_COUNT,
                b@.mem_bytes.cost_models.len() == COST_TYPE_COUNT,
                forall|j: int|
                    0 <= j < i ==> #[trigger] b@.cpu_insns.cost_models[j] == default_cpu_model(
                        variants@[j],
                    ),
                forall|j: int|
                    0 <= j < i ==> #[trigger] b@.mem_bytes.cost_models[j] == default_mem_model(
                        variants@[j],
                    ),
                b@ == (BudgetView {
                    cpu_insns: DimensionView {
                        cost_models: b@.cpu_insns.cost_models,
                        ..start.cpu_insns
                    },
                    mem_bytes: DimensionView {
                        cost_models: b@.mem_bytes.cost_models,
                        ..start.mem_bytes
                    },
                    ..start
                }),
            decreases COST_TYPE_COUNT - i,
        {
            let ct = variants[i];
            proof {
                assert(ct.position() == i);
            }
            set_default_cpu_model(ct, b.cpu_insns.get_cost_model_mut(ct));
            set_default_mem_model(ct, b.mem_bytes.get_cost_model_mut(ct));
            i = i + 1;
        }
        b.cpu_insns.reset(DEFAULT_CPU_LIMIT);
        b.mem_bytes.reset(DEFAULT_MEM_LIMIT);
        proof {
            law_positions_number_the_kinds();
            assert(b@ =~~= BudgetView::default_budget());
        }
        b
    }
}

/// The budget of the host.
#[derive(PartialEq, Eq, PartialOrd, Ord)]
pub struct Budget(BudgetImpl);

impl View for Budget {
    type V = BudgetView;

    closed spec fn view(&self) -> BudgetView {
        self.0@
    }
}

impl Default for Budget {
    fn default() -> (b: Budget)
        ensures
            b@.wf(),
            b@ == BudgetView::default_budget(),
    {
        Budget(BudgetImpl::default())
    }
}

/// Something that has a budget.
pub trait AsBudget {
    /// The budget that it has.
    spec fn budget(&self) -> BudgetView;

    /// Gives the budget, to be read.
    fn as_budget(&self) -> (budget: &Budget)
        ensures
            budget@ == self.budget(),
    ;

    /// Gives the budget, to be charged.
    fn as_budget_mut(&mut self) -> (budget: &mut Budget)
        ensures
            budget@ == old(self).budget(),
            final(self).budget() == final(budget)@,
    ;
}

impl AsBudget for Budget {
    open spec fn budget(&self) -> BudgetView {
        self@
    }

    fn as_budget(&self) -> (budget: &Budget)
        ensures
            budget == self,
    {
        self
    }

    fn as_budget_mut(&mut self) -> (budget: &mut Budget)
        ensures
            *budget == *old(self),
            *final(self) == *final(budget),
    {
        self
    }
}

impl Budget {
    /// Initializes the budget from network configuration settings.
    pub fn from_configs(
        cpu_limit: u64,
        mem_limit: u64,
        cpu_cost_params: ContractCostParams,
        mem_cost_params: ContractCostParams,
    ) -> (b: Self)
        ensures
            b@.wf(),
            b@ == BudgetView::of_configs(cpu_limit, mem_limit, cpu_cost_params, mem_cost_params),
            b@.cpu_insns.limit == cpu_limit,
            b@.mem_bytes.limit == mem_limit,
            b@.cpu_insns.cost_models == cpu_cost_params.0@,
            b@.mem_bytes.cost_models == mem_cost_params.0@,
            b@.cpu_insns.total_count == 0,
            b@.mem_bytes.total_count == 0,
    {
        Budget(BudgetImpl::from_configs(cpu_limit, mem_limit, cpu_cost_params, mem_cost_params))
    }

    /// Notes a charge in the tracker, for reporting.
    fn note(
        &mut self,
        ty: ContractCostType,
        iterations: u64,
        input: Option<u64>,
    ) -> (result: Result<(), HostError>)
        requires
            old(self)@.wf(),
        ensures
            final(self)@ == old(self)@.noted(ty, iterations, input),
            final(self)@.wf(),
            result == (if BudgetView::input_fits(ty, input) {
                Ok(())
            } else {
                Err(HostError::input_mismatch())
            }),
    {
        proof {
            law_positions_number_the_kinds();
        }
        let entry = self.get_tracker_mut(ty);
        entry.0 = entry.0.saturating_add(iterations);
        match (entry.1, input) {
            (None, None) => Ok(()),
            (Some(t), Some(i)) => {
                entry.1 = Some(t.saturating_add(saturating_product(i, iterations)));
                Ok(())
            },
            _ => Err(HostError::from((ScErrorType::Context, ScErrorCode::InternalError))),
        }
    }

    /// Charges a number of pieces of work of one kind and size.
    ///
    /// NB: charging a cost-amount to the budgeting machinery itself seems to
    /// cost a similar amount as a single WASM instruction; so it's quite
    /// important to buffer WASM step counts before flushing to budgeting,
    /// and we add a constant charge here for "the cost of budget-counting"
    /// itself.
    fn charge_in_bulk(
        &mut self,
        ty: ContractCostType,
        iterations: u64,
        input: Option<u64>,
    ) -> (result: Result<(), HostError>)
        requires
            old(self)@.wf(),
            old(self)@.can_charge(ty, iterations, input),
        ensures
            final(self)@ == old(self)@.charged(ty, iterations, input),
            result == old(self)@.charge_result(ty, iterations, input),
            final(self)@.wf(),
    {
        if !self.0.enabled {
            return Ok(());
        }
        // update tracker for reporting
        match self.note(ty, iterations, input) {
            Ok(_) => {},
            Err(error) => return Err(error),
        }
        // we already know `ChargeBudget` has undefined input, so here we just add 1 iteration.
        match self.note(ContractCostType::ChargeBudget, 1, None) {
            Ok(_) => {},
            Err(error) => return Err(error),
        }
        // do the actual budget charging; `ChargeBudget` only affects the cpu budget
        match self.0.cpu_insns.charge(ContractCostType::ChargeBudget, 1, None) {
            Ok(_) => {},
            Err(error) => return Err(error),
        }
        match self.0.cpu_insns.charge(ty, iterations, input) {
            Ok(_) => {},
            Err(error) => return Err(error),
        }
        self.0.mem_bytes.charge(ty, iterations, input)
    }

    /// Whether there is a cost model for the cpu use of a kind of work.
    pub fn has_cpu_model(&self, ty: ContractCostType) -> (has_model: bool)
        ensures
            has_model == self@.cpu_insns.covers(ty),
    {
        self.0.cpu_insns.has_model(ty)
    }

    /// Whether there is a cost model for the memory use of a kind of work.
    pub fn has_mem_model(&self, ty: ContractCostType) -> (has_model: bool)
        ensures
            has_model == self@.mem_bytes.covers(ty),
    {
        self.0.mem_bytes.has_model(ty)
    }

    /// Whether the cost models that a charge needs are there. They always are in a
    /// default budget; one made from a shorter configuration may lack some.
    pub fn has_models_for_charge(
        &self,
        ty: ContractCostType,
        iterations: u64,
        input: Option<u64>,
    ) -> (has_models: bool)
        requires
            self@.wf(),
        ensures
            has_models == self@.can_charge(ty, iterations, input),
    {
        if !self.0.enabled || input.is_some() != ty.has_input() {
            return true;
        }
        if !self.has_cpu_model(ContractCostType::ChargeBudget) {
            return false;
        }
        let limit: u64 = self.0.cpu_insns.get_limit();
        let mut total: u64 = self.get_cpu_insns_consumed();
        match self.0.cpu_insns.price(ContractCostType::ChargeBudget, 1, None) {
            Ok(amount) => {
                total = total.saturating_add(amount);
                if total > limit {
                    return true;
                }
            },
            Err(_) => return true,
        }
        if !self.has_cpu_model(ty) {
            return false;
        }
        match self.0.cpu_insns.price(ty, iterations, input) {
            Ok(amount) => {
                total = total.saturating_add(amount);
                if total > limit {
                    return true;
                }
            },
            Err(_) => return true,
        }
        self.has_mem_model(ty)
    }

    /// Charges the budget under the specified kind of work. The actual amount
    /// charged is determined by the underlying cost model and may depend on
    /// the input. If the input is `None`, the model is assumed to be constant.
    /// Otherwise it is a linear model.  The caller needs to ensure the input
    /// passed is consistent with the inherent model underneath.
    pub fn charge(&mut self, ty: ContractCostType, input: Option<u64>) -> (result: Result<
        (),
        HostError,
    >)
        requires
            old(self)@.wf(),
            old(self)@.can_charge(ty, 1, input),
        ensures
            final(self)@ == old(self)@.charged(ty, 1, input),
            result == old(self)@.charge_result(ty, 1, input),
            final(self)@.wf(),
    {
        self.charge_in_bulk(ty, 1, input)
    }

    /// Charges what a run of the wasm interpreter has used, in units of cpu fuel and of
    /// memory fuel.
    pub fn apply_wasmi_fuels(&mut self, cpu_fuel: u64, mem_fuel: u64) -> (result: Result<
        (),
        HostError,
    >)
        requires
            old(self)@.wf(),
            old(self)@.can_apply_fuels(cpu_fuel, mem_fuel),
        ensures
            final(self)@ == old(self)@.fuels_applied(cpu_fuel, mem_fuel),
            result == old(self)@.fuels_result(cpu_fuel, mem_fuel),
            result is Ok && old(self)@.enabled ==> {
                &&& final(self)@.cpu_insns.total_count <= final(self)@.cpu_insns.limit
                &&& final(self)@.mem_bytes.total_count <= final(self)@.mem_bytes.limit
            },
            final(self)@.wf(),
    {
        match self.charge_in_bulk(ContractCostType::WasmInsnExec, cpu_fuel, None) {
            Ok(_) => {},
            Err(error) => return Err(error),
        }
        self.charge_in_bulk(ContractCostType::WasmMemAlloc, mem_fuel, None)
    }

    /// Performs a bulk charge to the budget under the specified kind of work.
    /// The `iterations` is the batch size. The caller needs to ensure:
    /// 1. the batched charges have identical costs (having the same
    /// kind and `input`)
    /// 2. The input passed in (Some/None) is consistent with the cost model
    /// underneath the kind (linear/constant).
    pub fn batched_charge(
        &mut self,
        ty: ContractCostType,
        iterations: u64,
        input: Option<u64>,
    ) -> (result: Result<(), HostError>)
        requires
            old(self)@.wf(),
            old(self)@.can_charge(ty, iterations, input),
        ensures
            final(self)@ == old(self)@.charged(ty, iterations, input),
            result == old(self)@.charge_result(ty, iterations, input),
            final(self)@.wf(),
    {
        self.charge_in_bulk(ty, iterations, input)
    }

    /// Disables the budget, and tells whether it was enabled. Charges to it are free
    /// until [`end_free`](Budget::end_free) puts it back.
    pub fn begin_free(&mut self) -> (prev: bool)
        ensures
            final(self)@ == old(self)@.with_enabled(false),
            prev == old(self)@.enabled,
    {
        let prev: bool = self.0.enabled;
        self.0.enabled = false;
        prev
    }

    /// Enables the budget, or not, as it was when [`begin_free`](Budget::begin_free)
    /// was called.
    pub fn end_free(&mut self, prev: bool)
        ensures
            final(self)@ == old(self)@.with_enabled(prev),
    {
        self.0.enabled = prev;
    }

    /// Runs `f` on the budget with the budget disabled, so that its charges are free, and
    /// hands on its result. Afterwards the budget is enabled or not as it was before.
    pub fn with_free_budget<F, T>(&mut self, f: F) -> (res: Result<T, HostError>) where
        F: FnOnce(&mut Budget) -> Result<T, HostError>,

        requires
            forall|b: &mut Budget|
                b@ == old(self)@.with_enabled(false) ==> #[trigger] f.requires((b,)),
        ensures
            exists|b: &mut Budget|
                {
                    &&& b@ == old(self)@.with_enabled(false)
                    &&& #[trigger] f.ensures((b,), res)
                    &&& final(self)@ == final(b)@.with_enabled(old(self)@.enabled)
                },
            final(self)@.enabled == old(self)@.enabled,
    {
        let prev: bool = self.begin_free();
        let res = f(self);
        self.end_free(prev);
        res
    }

    /// How often a kind of work was charged, and the total of the sizes of that work,
    /// where it has a size.
    pub fn get_tracker(&self, ty: ContractCostType) -> (entry: (u64, Option<u64>))
        requires
            self@.wf(),
        ensures
            entry == self@.tracker[ty.position()],
            entry.1 is Some <==> ty.takes_input(),
    {
        self.0.tracker[ty.index()]
    }

    /// The tracker's entry on a kind of work, to be changed.
    fn get_tracker_mut(&mut self, ty: ContractCostType) -> (entry: &mut (u64, Option<u64>))
        requires
            old(self)@.tracker.len() == COST_TYPE_COUNT,
        ensures
            *entry == old(self)@.tracker[ty.position()],
            final(self)@ == (BudgetView {
                tracker: old(self)@.tracker.update(ty.position(), *final(entry)),
                ..old(self)@
            }),
    {
        &mut self.0.tracker[ty.index()]
    }

    /// The cpu instructions used.
    pub fn get_cpu_insns_consumed(&self) -> (total: u64)
        ensures
            total == self@.cpu_insns.total_count,
    {
        self.0.cpu_insns.get_total_count()
    }

    /// The memory bytes used.
    pub fn get_mem_bytes_consumed(&self) -> (total: u64)
        ensures
            total == self@.mem_bytes.total_count,
    {
        self.0.mem_bytes.get_total_count()
    }

    /// The cpu instructions left.
    pub fn get_cpu_insns_remaining(&self) -> (remaining: u64)
        ensures
            remaining == self@.cpu_insns.remaining(),
    {
        self.0.cpu_insns.get_remaining()
    }

    /// The memory bytes left.
    pub fn get_mem_bytes_remaining(&self) -> (remaining: u64)
        ensures
            remaining == self@.mem_bytes.remaining(),
    {
        self.0.mem_bytes.get_remaining()
    }

    /// Makes the budget the default one, whatever it was.
    pub fn reset_default(&mut self)
        ensures
            final(self)@ == BudgetView::default_budget(),
            final(self)@.wf(),
    {
        self.0 = BudgetImpl::default();
    }

    /// Forgets all that was used, and allows as much of both resources as there can be.
    pub fn reset_unlimited(&mut self)
        requires
            old(self)@.wf(),
        ensures
            final(self)@ == old(self)@.with_cpu_limit(u64::MAX).with_mem_limit(u64::MAX),
            final(self)@.wf(),
    {
        self.reset_unlimited_cpu();
        self.reset_unlimited_mem();
    }

    /// Forgets the cpu instructions used and all that was noted, and allows as many
    /// cpu instructions as there can be.
    pub fn reset_unlimited_cpu(&mut self)
        requires
            old(self)@.wf(),
        ensures
            final(self)@ == old(self)@.with_cpu_limit(u64::MAX),
            final(self)@.wf(),
    {
        self.0.cpu_insns.reset(u64::MAX);
        self.reset_tracker();
    }

    /// Forgets the memory bytes used and all that was noted, and allows as many
    /// memory bytes as there can be.
    pub fn reset_unlimited_mem(&mut self)
        requires
            old(self)@.wf(),
        ensures
            final(self)@ == old(self)@.with_mem_limit(u64::MAX),
            final(self)@.wf(),
    {
        self.0.mem_bytes.reset(u64::MAX);
        self.reset_tracker();
    }

    /// Empties the tracker. What was used of the resources stays.
    pub fn reset_tracker(&mut self)
        requires
            old(self)@.wf(),
        ensures
            final(self)@ == old(self)@.with_empty_tracker(),
            final(self)@.wf(),
    {
        proof {
            law_positions_number_the_kinds();
        }
        let mut i: usize = 0;
        while i < self.0.tracker.len()
            invariant
                i <= COST_TYPE_COUNT,
                old(self)@.wf(),
                self@ == (BudgetView { tracker: self@.tracker, ..old(self)@ }),
                self@.tracker.len() == COST_TYPE_COUNT,
                forall|j: int|
                    0 <= j < i ==> #[trigger] self@.tracker[j] == BudgetView::empty_tracker()[j],
                forall|j: int|
                    i <= j < COST_TYPE_COUNT ==> #[trigger] self@.tracker[j]
                        == old(self)@.tracker[j],
                forall|j: int|
                    0 <= j < COST_TYPE_COUNT ==> (
                    #[trigger] ContractCostType::all()[j]).position() == j,
            decreases COST_TYPE_COUNT - i,
        {
            let total = match self.0.tracker[i].1 {
                Some(_) => Some(0),
                None => None,
            };
            proof {
                assert(ContractCostType::all()[i as int].position() == i);
            }
            self.0.tracker.set(i, (0, total));
            i = i + 1;
        }
    }

    /// Forgets all that was used and sets new limits.
    pub fn reset_limits(&mut self, cpu: u64, mem: u64)
        requires
            old(self)@.wf(),
        ensures
            final(self)@ == old(self)@.with_cpu_limit(cpu).with_mem_limit(mem),
            final(self)@.wf(),
    {
        self.0.cpu_insns.reset(cpu);
        self.0.mem_bytes.reset(mem);
        self.reset_tracker();
    }

    /// Sets the terms of all cost models to zero, so that single ones can be set
    /// afterwards.
    pub fn reset_models(&mut self)
        requires
            old(self)@.wf(),
        ensures
            final(self)@ == (BudgetView {
                cpu_insns: old(self)@.cpu_insns.with_free_models(),
                mem_bytes: old(self)@.mem_bytes.with_free_models(),
                ..old(self)@
            }),
            final(self)@.wf(),
    {
        self.0.cpu_insns.reset_models();
        self.0.mem_bytes.reset_models();
    }

    /// Sets the fuel costs of the interpreter to their "factory default".
    pub fn reset_fuel_config(&mut self)
        ensures
            final(self)@ == (BudgetView { fuel_config: FuelConfig::factory(), ..old(self)@ }),
            old(self)@.wf() ==> final(self)@.wf(),
    {
        self.0.fuel_config.reset();
    }

    /// The cpu instructions left, in whole units of fuel.
    fn get_cpu_insns_remaining_as_fuel(&self) -> (fuel: Result<u64, HostError>)
        requires
            self@.cpu_insns.covers(ContractCostType::WasmInsnExec),
        ensures
            fuel == self@.cpu_fuel(),
    {
        let cpu_remaining: u64 = self.get_cpu_insns_remaining();
        let cpu_per_fuel: i64 = self.0.cpu_insns.get_cost_model(
            ContractCostType::WasmInsnExec,
        ).linear_term;
        if cpu_per_fuel < 0 {
            return Err(HostError::from((ScErrorType::Context, ScErrorCode::InvalidInput)));
        }
        let cpu_per_fuel: u64 = if cpu_per_fuel < 1 {
            1
        } else {
            cpu_per_fuel as u64
        };
        // Due to rounding, the amount of cpu converted to fuel will be slightly
        // less than the total cpu available. This is okay because 1. that rounded-off
        // amount should be very small (less than the cpu_per_fuel) 2. it does
        // not cumulate over host function calls (each time the Vm returns back
        // to the host, the host gets back the unspent fuel amount converged
        // back to the cpu). The only way this rounding difference is observable
        // is if the Vm traps due to `OutOfFuel`, this tiny amount would still
        // be withheld from the host.
        Ok(cpu_remaining / cpu_per_fuel)
    }

    /// The memory bytes left, in whole units of memory fuel.
    fn get_mem_bytes_remaining_as_fuel(&self) -> (fuel: Result<u64, HostError>)
        requires
            self@.mem_bytes.covers(ContractCostType::WasmMemAlloc),
        ensures
            fuel == self@.mem_fuel(),
    {
        let bytes_remaining: u64 = self.get_mem_bytes_remaining();
        let bytes_per_fuel: i64 = self.0.mem_bytes.get_cost_model(
            ContractCostType::WasmMemAlloc,
        ).linear_term;
        if bytes_per_fuel < 0 {
            return Err(HostError::from((ScErrorType::Context, ScErrorCode::InvalidInput)));
        }
        let bytes_per_fuel: u64 = if bytes_per_fuel < 1 {
            1
        } else {
            bytes_per_fuel as u64
        };
        // See comment about rounding above.
        Ok(bytes_remaining / bytes_per_fuel)
    }

    /// What is left of the budget, as units of cpu fuel and of memory fuel to run the
    /// wasm interpreter with.
    pub fn get_fuels_budget(&self) -> (fuels: Result<(u64, u64), HostError>)
        requires
            self@.cpu_insns.covers(ContractCostType::WasmInsnExec),
            self@.cpu_fuel() is Ok ==> self@.mem_bytes.covers(ContractCostType::WasmMemAlloc),
        ensures
            fuels == self@.fuels(),
            fuels is Ok <==> 0 <= self@.cpu_insns.cost_models[0].linear_term && 0
                <= self@.mem_bytes.cost_models[1].linear_term,
            fuels is Ok ==> fuels->Ok_0.0 == self@.cpu_insns.remaining() as int / max(
                1,
                self@.cpu_insns.cost_models[0].linear_term as int,
            ),
            fuels is Ok ==> fuels->Ok_0.1 == self@.mem_bytes.remaining() as int / max(
                1,
                self@.mem_bytes.cost_models[1].linear_term as int,
            ),
    {
        proof {
            law_fuels_are_what_remains_in_units(self@);
        }
        let cpu_fuel: u64 = match self.get_cpu_insns_remaining_as_fuel() {
            Ok(cpu_fuel) => cpu_fuel,
            Err(error) => return Err(error),
        };
        let mem_fuel: u64 = match self.get_mem_bytes_remaining_as_fuel() {
            Ok(mem_fuel) => mem_fuel,
            Err(error) => return Err(error),
        };
        Ok((cpu_fuel, mem_fuel))
    }

    /// Generates a fuel schedule for the wasm interpreter based on our calibration.
    pub fn wasmi_fuel_costs(&self) -> (costs: soroban_wasmi::FuelCosts)
        ensures
            fuel_schedule(costs) == FuelSchedule::interpreter_default().with_config(
                self@.fuel_config,
            ),
    {
        self.0.fuel_config.fuel_costs()
    }
}

} // verus!
