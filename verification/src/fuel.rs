//! The fuel schedule of the wasm interpreter.

use vstd::prelude::*;

verus! {

/// The fuel costs of the interpreter that can be configured. They (coarsely) define the
/// relative costs of different wasm instruction types and are for the interpreter's
/// own fuel metering only. Units are in "fuels".
#[derive(Clone, Copy, Debug, PartialEq, Eq, PartialOrd, Ord, Hash, Structural)]
pub struct FuelConfig {
    /// The base fuel costs for all instructions.
    pub base: u64,
    /// The fuel cost for instruction operating on Wasm entities.
    ///
    /// # Note
    ///
    /// A Wasm entity is one of `func`, `global`, `memory` or `table`.
    /// Those instructions are usually a bit more costly since they need
    /// multiple indirect accesses through the Wasm instance and store.
    pub entity: u64,
    /// The fuel cost offset for `memory.load` instructions.
    pub load: u64,
    /// The fuel cost offset for `memory.store` instructions.
    pub store: u64,
    /// The fuel cost offset for `call` and `call_indirect` instructions.
    pub call: u64,
}

impl FuelConfig {
    /// The calibrated costs.
    pub open spec fn calibrated() -> FuelConfig {
        FuelConfig { base: 1, entity: 2, load: 1, store: 1, call: 49 }
    }

    /// The "factory default" costs, with which calibration starts.
    pub open spec fn factory() -> FuelConfig {
        FuelConfig { base: 1, entity: 1, load: 1, store: 1, call: 1 }
    }

    /// Sets the costs to the "factory default".
    pub fn reset(&mut self)
        ensures
            *final(self) == Self::factory(),
    {
        self.base = 1;
        self.entity = 1;
        self.load = 1;
        self.store = 1;
        self.call = 1;
    }

    /// Puts the configured costs into a fuel schedule of the interpreter. All other
    /// entries of the schedule stay.
    pub fn apply_to(&self, costs: &mut soroban_wasmi::FuelCosts)
        ensures
            fuel_schedule(*final(costs)) == fuel_schedule(*old(costs)).with_config(*self),
    {
        set_base(costs, self.base);
        set_entity(costs, self.entity);
        set_load(costs, self.load);
        set_store(costs, self.store);
        set_call(costs, self.call);
    }

    /// The interpreter's own fuel schedule with the configured costs in it.
    pub fn fuel_costs(&self) -> (costs: soroban_wasmi::FuelCosts)
        ensures
            fuel_schedule(costs) == FuelSchedule::interpreter_default().with_config(*self),
    {
        let mut costs = default_fuel_costs();
        self.apply_to(&mut costs);
        costs
    }
}

impl Default for FuelConfig {
    fn default() -> (config: FuelConfig)
        ensures
            config == FuelConfig::calibrated(),
    {
        FuelConfig { base: 1, entity: 2, load: 1, store: 1, call: 49 }
    }
}

/// All entries of a fuel schedule of the interpreter.
pub struct FuelSchedule {
    pub config: FuelConfig,
    /// How many stack values that are kept by a branch cost one fuel.
    pub branch_kept_per_fuel: u64,
    /// How many locals of a called function cost one fuel.
    pub func_locals_per_fuel: u64,
    /// How many bytes of linear memory that are processed in bulk cost one fuel.
    pub memory_bytes_per_fuel: u64,
    /// How many elements of a table that are processed in bulk cost one fuel.
    pub table_elements_per_fuel: u64,
}

impl FuelSchedule {
    /// The schedule that the interpreter starts from.
    pub open spec fn interpreter_default() -> FuelSchedule {
        FuelSchedule {
            config: FuelConfig::factory(),
            branch_kept_per_fuel: 8,
            func_locals_per_fuel: 8,
            memory_bytes_per_fuel: 64,
            table_elements_per_fuel: 8,
        }
    }

    /// The schedule with other costs in its configurable part.
    pub open spec fn with_config(self, config: FuelConfig) -> FuelSchedule {
        FuelSchedule { config, ..self }
    }
}

/// `soroban_wasmi::FuelCosts`, the fuel schedule of the interpreter.
#[verifier::external_type_specification]
#[verifier::external_body]
pub struct ExFuelCosts(soroban_wasmi::FuelCosts);

/// What the fields of a `soroban_wasmi::FuelCosts` hold.
pub uninterp spec fn fuel_schedule(costs: soroban_wasmi::FuelCosts) -> FuelSchedule;

/// Calls `soroban_wasmi::FuelCosts::default`. Each of the five configurable costs is
/// one; 64 bytes of memory, or eight values of eight bytes, cost one fuel.
#[verifier::external_body]
fn default_fuel_costs() -> (costs: soroban_wasmi::FuelCosts)
    ensures
        fuel_schedule(costs) == FuelSchedule::interpreter_default(),
{
    soroban_wasmi::FuelCosts::default()
}

/// Sets the public field `base` of a `soroban_wasmi::FuelCosts` and no other field.
#[verifier::external_body]
fn set_base(costs: &mut soroban_wasmi::FuelCosts, base: u64)
    ensures
        fuel_schedule(*final(costs)) == fuel_schedule(*old(costs)).with_config(
            FuelConfig { base, ..fuel_schedule(*old(costs)).config },
        ),
{
    costs.base = base;
}

/// Sets the public field `entity` of a `soroban_wasmi::FuelCosts` and no other field.
#[verifier::external_body]
fn set_entity(costs: &mut soroban_wasmi::FuelCosts, entity: u64)
    ensures
        fuel_schedule(*final(costs)) == fuel_schedule(*old(costs)).with_config(
            FuelConfig { entity, ..fuel_schedule(*old(costs)).config },
        ),
{
    costs.entity = entity;
}

/// Sets the public field `load` of a `soroban_wasmi::FuelCosts` and no other field.
#[verifier::external_body]
fn set_load(costs: &mut soroban_wasmi::FuelCosts, load: u64)
    ensures
        fuel_schedule(*final(costs)) == fuel_schedule(*old(costs)).with_config(
            FuelConfig { load, ..fuel_schedule(*old(costs)).config },
        ),
{
    costs.load = load;
}

/// Sets the public field `store` of a `soroban_wasmi::FuelCosts` and no other field.
#[verifier::external_body]
fn set_store(costs: &mut soroban_wasmi::FuelCosts, store: u64)
    ensures
        fuel_schedule(*final(costs)) == fuel_schedule(*old(costs)).with_config(
            FuelConfig { store, ..fuel_schedule(*old(costs)).config },
        ),
{
    costs.store = store;
}

/// Sets the public field `call` of a `soroban_wasmi::FuelCosts` and no other field.
#[verifier::external_body]
fn set_call(costs: &mut soroban_wasmi::FuelCosts, call: u64)
    ensures
        fuel_schedule(*final(costs)) == fuel_schedule(*old(costs)).with_config(
            FuelConfig { call, ..fuel_schedule(*old(costs)).config },
        ),
{
    costs.call = call;
}

} // verus!
