use soroban_budget::{
    BudgetDimension, ContractCostParamEntry, ContractCostParams, ContractCostType,
    ExtensionPoint, HostError, ScErrorCode, ScErrorType,
};

const A: ContractCostType = ContractCostType::WasmInsnExec;
const B: ContractCostType = ContractCostType::WasmMemAlloc;
const C: ContractCostType = ContractCostType::HostMemAlloc;

fn model(const_term: i64, linear_term: i64) -> ContractCostParamEntry {
    ContractCostParamEntry { ext: ExtensionPoint::V0, const_term, linear_term }
}

/// Three cost models, the last of which cannot be evaluated.
fn three(limit: u64) -> BudgetDimension {
    let params = ContractCostParams(vec![model(10, 0), model(1, 5), model(-1, 0)]);
    let mut dim = BudgetDimension::from_config(params);
    dim.reset(limit);
    dim
}

fn over() -> HostError {
    HostError { error_type: ScErrorType::Budget, code: ScErrorCode::ExceededLimit }
}

fn invalid() -> HostError {
    HostError { error_type: ScErrorType::Context, code: ScErrorCode::InvalidInput }
}

#[test]
fn a_new_dimension_is_empty_and_free() {
    let mut dim = BudgetDimension::new();
    assert_eq!(dim.get_limit(), 0);
    assert_eq!(dim.get_total_count(), 0);
    assert_eq!(dim.get_remaining(), 0);
    assert!(!dim.is_over_budget());
    for ty in ContractCostType::variants() {
        assert_eq!(*dim.get_cost_model(ty), model(0, 0));
        assert_eq!(dim.get_count(ty), 0);
        assert!(dim.has_model(ty));
        assert_eq!(dim.charge(ty, u64::MAX, Some(u64::MAX)), Ok(()));
    }
    assert_eq!(dim.get_total_count(), 0);
}

#[test]
fn a_configured_dimension_has_the_given_models() {
    let dim = three(100);
    assert_eq!(*dim.get_cost_model(A), model(10, 0));
    assert_eq!(*dim.get_cost_model(B), model(1, 5));
    assert_eq!(*dim.get_cost_model(C), model(-1, 0));
    assert!(dim.has_model(C));
    assert!(!dim.has_model(ContractCostType::HostMemCpy));
    assert_eq!(dim.get_limit(), 100);
    assert_eq!(dim.get_remaining(), 100);
}

#[test]
fn charges_are_counted_by_kind_and_in_all() {
    let mut dim = three(100);
    assert_eq!(dim.charge(A, 3, None), Ok(()));
    assert_eq!(dim.charge(B, 2, Some(4)), Ok(()));
    assert_eq!(dim.get_count(A), 30);
    assert_eq!(dim.get_count(B), 42);
    assert_eq!(dim.get_count(C), 0);
    assert_eq!(dim.get_total_count(), 72);
    assert_eq!(dim.get_remaining(), 28);
}

#[test]
fn the_limit_itself_may_be_used() {
    let mut dim = three(30);
    assert_eq!(dim.charge(A, 3, None), Ok(()));
    assert_eq!(dim.get_remaining(), 0);
    assert!(!dim.is_over_budget());
    assert_eq!(dim.charge(A, 0, None), Ok(()));
    assert_eq!(dim.charge(B, 1, Some(0)), Err(over()));
    assert!(dim.is_over_budget());
}

#[test]
fn a_refused_charge_is_counted_and_refuses_the_next() {
    let mut dim = three(25);
    assert_eq!(dim.charge(A, 3, None), Err(over()));
    assert_eq!(dim.get_total_count(), 30);
    assert_eq!(dim.get_count(A), 30);
    assert_eq!(dim.get_remaining(), 0);
    assert_eq!(dim.charge(A, 0, None), Err(over()));
    assert_eq!(dim.get_total_count(), 30);
}

#[test]
fn work_without_a_sound_model_uses_nothing() {
    let mut dim = three(25);
    assert_eq!(dim.charge(C, 1, None), Err(invalid()));
    assert_eq!(dim.get_total_count(), 0);
    assert_eq!(dim.price(C, 1, None), Err(invalid()));
    assert_eq!(dim.price(B, 3, Some(2)), Ok(33));
}

#[test]
fn counts_saturate() {
    let mut dim = three(u64::MAX);
    assert_eq!(dim.charge(A, u64::MAX, None), Ok(()));
    assert_eq!(dim.get_count(A), u64::MAX);
    assert_eq!(dim.charge(B, 1, Some(1)), Ok(()));
    assert_eq!(dim.get_count(B), 6);
    assert_eq!(dim.get_total_count(), u64::MAX);
    assert!(!dim.is_over_budget());
    let mut limited = three(u64::MAX - 1);
    assert_eq!(limited.charge(B, 2, Some(u64::MAX)), Err(over()));
}

#[test]
fn a_reset_keeps_the_models() {
    let mut dim = three(25);
    assert_eq!(dim.charge(A, 3, None), Err(over()));
    dim.reset(60);
    assert_eq!(dim.get_total_count(), 0);
    assert_eq!(dim.get_count(A), 0);
    assert_eq!(dim.get_limit(), 60);
    assert_eq!(*dim.get_cost_model(A), model(10, 0));
    assert!(dim == three(60));
}

#[test]
fn models_can_be_reset_and_set() {
    let mut dim = three(100);
    assert_eq!(dim.charge(A, 1, None), Ok(()));
    dim.reset_models();
    assert_eq!(dim.charge(A, 1000, None), Ok(()));
    assert_eq!(dim.charge(C, 1000, Some(7)), Ok(()));
    assert_eq!(dim.get_total_count(), 10);
    dim.get_cost_model_mut(C).const_term = 3;
    assert_eq!(*dim.get_cost_model(C), model(3, 0));
    assert_eq!(dim.charge(C, 2, Some(7)), Ok(()));
    assert_eq!(dim.get_count(C), 6);
}

#[test]
fn parts_of_a_batch_add_up_to_it() {
    let mut apart = three(100);
    let mut batched = three(100);
    let _ = apart.charge(B, 2, Some(4));
    let last = apart.charge(B, 3, Some(4));
    assert_eq!(batched.charge(B, 5, Some(4)), last);
    assert_eq!(last, Err(over()));
    assert!(apart == batched);
}

#[test]
fn the_order_of_charges_makes_no_difference() {
    let mut one = three(100);
    let mut two = three(100);
    let _ = one.charge(A, 7, None);
    let _ = one.charge(B, 8, Some(1));
    let _ = two.charge(B, 8, Some(1));
    let _ = two.charge(A, 7, None);
    assert!(one == two);
    assert_eq!(one.get_total_count(), 118);
    assert_eq!(one.get_total_count(), one.get_count(A) + one.get_count(B) + one.get_count(C));
}
