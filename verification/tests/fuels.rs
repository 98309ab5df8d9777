use soroban_budget::{
    Budget, ContractCostParamEntry, ContractCostParams, ContractCostType, ExtensionPoint,
    FuelConfig, HostError, ScErrorCode, ScErrorType,
};
use soroban_wasmi::FuelCosts;

fn uniform(const_term: i64, linear_term: i64) -> ContractCostParams {
    let model = ContractCostParamEntry { ext: ExtensionPoint::V0, const_term, linear_term };
    ContractCostParams(vec![model; 31])
}

fn assert_other_entries_are_default(costs: &FuelCosts) {
    let default = FuelCosts::default();
    for n in [0, 1, 7, 8, 63, 64, 65, 640, u64::MAX] {
        assert_eq!(costs.fuel_for_bytes(n), n / 64);
        assert_eq!(costs.fuel_for_locals(n), n / 8);
        assert_eq!(costs.fuel_for_elements(n), n / 8);
        assert_eq!(costs.fuel_for_bytes(n), default.fuel_for_bytes(n));
    }
}

#[test]
fn the_fuel_schedule_holds_the_calibrated_costs() {
    let costs = Budget::default().wasmi_fuel_costs();
    assert_eq!(costs.base, 1);
    assert_eq!(costs.entity, 2);
    assert_eq!(costs.load, 1);
    assert_eq!(costs.store, 1);
    assert_eq!(costs.call, 49);
    assert_other_entries_are_default(&costs);
}

#[test]
fn each_configured_cost_goes_to_its_own_entry() {
    let config = FuelConfig { base: 11, entity: 12, load: 13, store: 14, call: 15 };
    let costs = config.fuel_costs();
    assert_eq!(costs.base, 11);
    assert_eq!(costs.entity, 12);
    assert_eq!(costs.load, 13);
    assert_eq!(costs.store, 14);
    assert_eq!(costs.call, 15);
    assert_other_entries_are_default(&costs);
}

#[test]
fn the_factory_costs_are_the_interpreters_own() {
    let mut b = Budget::default();
    b.reset_fuel_config();
    let costs = b.wasmi_fuel_costs();
    let default = FuelCosts::default();
    assert_eq!(costs.base, default.base);
    assert_eq!(costs.entity, default.entity);
    assert_eq!(costs.load, default.load);
    assert_eq!(costs.store, default.store);
    assert_eq!(costs.call, default.call);
    assert_eq!(format!("{:?}", costs), format!("{:?}", default));
}

#[test]
fn fuel_configs_are_calibrated_or_factory() {
    let mut config = FuelConfig::default();
    assert_eq!(config, FuelConfig { base: 1, entity: 2, load: 1, store: 1, call: 49 });
    config.reset();
    assert_eq!(config, FuelConfig { base: 1, entity: 1, load: 1, store: 1, call: 1 });
}

#[test]
fn the_default_budget_grants_a_fuel_for_each_unit() {
    assert_eq!(Budget::default().get_fuels_budget(), Ok((40_000_000, 52_428_800)));
}

#[test]
fn fuel_is_granted_in_whole_units() {
    let mut b = Budget::from_configs(1000, 500, uniform(1, 7), uniform(2, 3));
    assert_eq!(b.get_fuels_budget(), Ok((142, 166)));
    assert_eq!(b.charge(ContractCostType::VecEntry, None), Ok(()));
    assert_eq!(b.get_fuels_budget(), Ok((142, 166)));
    assert_eq!(b.batched_charge(ContractCostType::VecEntry, 4, None), Ok(()));
    // 993 instructions and 490 bytes remain
    assert_eq!(b.get_fuels_budget(), Ok((141, 163)));
    assert_eq!(b.batched_charge(ContractCostType::VecEntry, 245, None), Ok(()));
    assert_eq!(b.get_fuels_budget(), Ok((106, 0)));
    // a unit of memory fuel is charged below its worth
    b.reset_limits(1000, 500);
    assert_eq!(b.apply_wasmi_fuels(0, 166), Ok(()));
}

#[test]
fn fuel_of_negative_worth_is_refused() {
    let invalid = HostError { error_type: ScErrorType::Context, code: ScErrorCode::InvalidInput };
    let cpu = Budget::from_configs(1000, 500, uniform(1, -7), uniform(2, 3));
    assert_eq!(cpu.get_fuels_budget(), Err(invalid));
    let mem = Budget::from_configs(1000, 500, uniform(1, 7), uniform(2, -3));
    assert_eq!(mem.get_fuels_budget(), Err(invalid));
}
