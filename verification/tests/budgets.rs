use soroban_budget::schedule::{set_default_cpu_model, set_default_mem_model};
use soroban_budget::{
    AsBudget, Budget, ContractCostParamEntry, ContractCostParams, ContractCostType,
    ExtensionPoint, HostError, ScErrorCode, ScErrorType,
};

fn model(const_term: i64, linear_term: i64) -> ContractCostParamEntry {
    ContractCostParamEntry { ext: ExtensionPoint::V0, const_term, linear_term }
}

fn uniform(const_term: i64, linear_term: i64) -> ContractCostParams {
    ContractCostParams(vec![model(const_term, linear_term); 31])
}

fn error(error_type: ScErrorType, code: ScErrorCode) -> HostError {
    HostError { error_type, code }
}

fn over() -> HostError {
    error(ScErrorType::Budget, ScErrorCode::ExceededLimit)
}

fn invalid() -> HostError {
    error(ScErrorType::Context, ScErrorCode::InvalidInput)
}

fn mismatch() -> HostError {
    error(ScErrorType::Context, ScErrorCode::InternalError)
}

#[test]
fn the_default_budget_has_its_limits() {
    let b = Budget::default();
    assert_eq!(b.get_cpu_insns_remaining(), 40_000_000);
    assert_eq!(b.get_mem_bytes_remaining(), 52_428_800);
    assert_eq!(b.get_cpu_insns_consumed(), 0);
    assert_eq!(b.get_mem_bytes_consumed(), 0);
    assert_eq!(b.get_tracker(ContractCostType::HostMemCpy), (0, Some(0)));
    assert_eq!(b.get_tracker(ContractCostType::VisitObject), (0, None));
}

#[test]
fn a_charge_uses_cpu_memory_and_overhead() {
    let mut b = Budget::default();
    assert_eq!(b.charge(ContractCostType::ValSer, Some(100)), Ok(()));
    // 130 for the charge itself, 587 and 1 for each byte
    assert_eq!(b.get_cpu_insns_consumed(), 130 + 587 + 100);
    assert_eq!(b.get_mem_bytes_consumed(), 9 + 300);
    assert_eq!(b.get_tracker(ContractCostType::ValSer), (1, Some(100)));
    assert_eq!(b.get_tracker(ContractCostType::ChargeBudget), (1, None));
    assert_eq!(b.get_cpu_insns_remaining(), 40_000_000 - 817);
    assert_eq!(b.get_mem_bytes_remaining(), 52_428_800 - 309);
}

#[test]
fn default_models_are_calibrated() {
    let cpu: [(ContractCostType, u64, u64); 31] = [
        (ContractCostType::WasmInsnExec, 7, 0),
        (ContractCostType::WasmMemAlloc, 0, 0),
        (ContractCostType::HostMemAlloc, 2350, 0),
        (ContractCostType::HostMemCpy, 23, 0),
        (ContractCostType::HostMemCmp, 43, 1),
        (ContractCostType::InvokeHostFunction, 928, 0),
        (ContractCostType::VisitObject, 19, 0),
        (ContractCostType::ValXdrConv, 134, 0),
        (ContractCostType::ValSer, 587, 1),
        (ContractCostType::ValDeser, 870, 0),
        (ContractCostType::ComputeSha256Hash, 1725, 33),
        (ContractCostType::ComputeEd25519PubKey, 25551, 0),
        (ContractCostType::MapEntry, 53, 0),
        (ContractCostType::VecEntry, 5, 0),
        (ContractCostType::GuardFrame, 4050, 0),
        (ContractCostType::VerifyEd25519Sig, 369634, 21),
        (ContractCostType::VmMemRead, 0, 0),
        (ContractCostType::VmMemWrite, 124, 0),
        (ContractCostType::VmInstantiation, 600447, 484),
        (ContractCostType::VmCachedInstantiation, 600447, 484),
        (ContractCostType::InvokeVmFunction, 5926, 0),
        (ContractCostType::ChargeBudget, 130, 0),
        (ContractCostType::ComputeKeccak256Hash, 3322, 46),
        (ContractCostType::ComputeEcdsaSecp256k1Key, 56525, 0),
        (ContractCostType::ComputeEcdsaSecp256k1Sig, 250, 0),
        (ContractCostType::RecoverEcdsaSecp256k1Key, 2319640, 0),
        (ContractCostType::Int256AddSub, 735, 0),
        (ContractCostType::Int256Mul, 1224, 0),
        (ContractCostType::Int256Div, 1347, 0),
        (ContractCostType::Int256Pow, 5350, 0),
        (ContractCostType::Int256Shift, 538, 0),
    ];
    let mem: [(ContractCostType, u64, u64); 31] = [
        (ContractCostType::WasmInsnExec, 0, 0),
        (ContractCostType::WasmMemAlloc, 1, 0),
        (ContractCostType::HostMemAlloc, 8, 1),
        (ContractCostType::HostMemCpy, 0, 0),
        (ContractCostType::HostMemCmp, 0, 0),
        (ContractCostType::InvokeHostFunction, 0, 0),
        (ContractCostType::VisitObject, 0, 0),
        (ContractCostType::ValXdrConv, 0, 0),
        (ContractCostType::ValSer, 9, 3),
        (ContractCostType::ValDeser, 4, 1),
        (ContractCostType::ComputeSha256Hash, 40, 0),
        (ContractCostType::ComputeEd25519PubKey, 0, 0),
        (ContractCostType::MapEntry, 0, 0),
        (ContractCostType::VecEntry, 0, 0),
        (ContractCostType::GuardFrame, 472, 0),
        (ContractCostType::VerifyEd25519Sig, 0, 0),
        (ContractCostType::VmMemRead, 0, 0),
        (ContractCostType::VmMemWrite, 0, 0),
        (ContractCostType::VmInstantiation, 117871, 40),
        (ContractCostType::VmCachedInstantiation, 117871, 40),
        (ContractCostType::InvokeVmFunction, 486, 0),
        (ContractCostType::ChargeBudget, 0, 0),
        (ContractCostType::ComputeKeccak256Hash, 40, 0),
        (ContractCostType::ComputeEcdsaSecp256k1Key, 0, 0),
        (ContractCostType::ComputeEcdsaSecp256k1Sig, 0, 0),
        (ContractCostType::RecoverEcdsaSecp256k1Key, 181, 0),
        (ContractCostType::Int256AddSub, 119, 0),
        (ContractCostType::Int256Mul, 119, 0),
        (ContractCostType::Int256Div, 119, 0),
        (ContractCostType::Int256Pow, 119, 0),
        (ContractCostType::Int256Shift, 119, 0),
    ];
    for i in 0..31 {
        let ty = cpu[i].0;
        assert_eq!(ty, mem[i].0);
        let input = if ty.has_input() { Some(1000) } else { None };
        let size = input.unwrap_or(0);
        let mut b = Budget::default();
        assert_eq!(b.charge(ty, input), Ok(()));
        assert_eq!(b.get_cpu_insns_consumed(), 130 + cpu[i].1 + cpu[i].2 * size);
        assert_eq!(b.get_mem_bytes_consumed(), mem[i].1 + mem[i].2 * size);
    }
}

#[test]
fn an_input_that_does_not_fit_is_noted_and_refused() {
    let mut b = Budget::default();
    assert_eq!(b.charge(ContractCostType::ValSer, None), Err(mismatch()));
    assert_eq!(b.batched_charge(ContractCostType::VisitObject, 4, Some(9)), Err(mismatch()));
    assert_eq!(b.get_tracker(ContractCostType::ValSer), (1, Some(0)));
    assert_eq!(b.get_tracker(ContractCostType::VisitObject), (4, None));
    assert_eq!(b.get_tracker(ContractCostType::ChargeBudget), (0, None));
    assert_eq!(b.get_cpu_insns_consumed(), 0);
    assert_eq!(b.get_mem_bytes_consumed(), 0);
}

#[test]
fn a_charge_refused_on_the_cpu_uses_no_memory() {
    let mut b = Budget::from_configs(15, 100, uniform(10, 0), uniform(3, 0));
    assert_eq!(b.charge(ContractCostType::MapEntry, None), Err(over()));
    assert_eq!(b.get_cpu_insns_consumed(), 20);
    assert_eq!(b.get_mem_bytes_consumed(), 0);
    // the overhead alone is refused now
    assert_eq!(b.charge(ContractCostType::MapEntry, None), Err(over()));
    assert_eq!(b.get_cpu_insns_consumed(), 30);
    assert_eq!(b.get_tracker(ContractCostType::MapEntry), (2, None));
    assert_eq!(b.get_tracker(ContractCostType::ChargeBudget), (2, None));
}

#[test]
fn a_charge_refused_on_memory_has_used_the_cpu() {
    let mut b = Budget::from_configs(100, 2, uniform(10, 0), uniform(3, 0));
    assert_eq!(b.charge(ContractCostType::MapEntry, None), Err(over()));
    assert_eq!(b.get_cpu_insns_consumed(), 20);
    assert_eq!(b.get_mem_bytes_consumed(), 3);
    assert_eq!(b.get_mem_bytes_remaining(), 0);
}

#[test]
fn a_negative_term_is_refused() {
    let mut b = Budget::from_configs(100, 100, uniform(-1, 0), uniform(3, 0));
    assert_eq!(b.charge(ContractCostType::MapEntry, None), Err(invalid()));
    assert_eq!(b.get_cpu_insns_consumed(), 0);
    let mut m = Budget::from_configs(100, 100, uniform(1, 0), uniform(3, -1));
    assert_eq!(m.charge(ContractCostType::MapEntry, None), Err(invalid()));
    assert_eq!(m.get_cpu_insns_consumed(), 2);
    assert_eq!(m.get_mem_bytes_consumed(), 0);
}

#[test]
fn charging_the_charge_itself_counts_twice() {
    let mut b = Budget::from_configs(1000, 1000, uniform(10, 0), uniform(3, 0));
    assert_eq!(b.batched_charge(ContractCostType::ChargeBudget, 5, None), Ok(()));
    assert_eq!(b.get_cpu_insns_consumed(), 60);
    assert_eq!(b.get_mem_bytes_consumed(), 15);
    assert_eq!(b.get_tracker(ContractCostType::ChargeBudget), (6, None));
}

#[test]
fn a_batch_saves_overhead_only() {
    let mut apart = Budget::default();
    let mut batched = Budget::default();
    for _ in 0..5 {
        assert_eq!(apart.charge(ContractCostType::ValDeser, Some(8)), Ok(()));
    }
    assert_eq!(batched.batched_charge(ContractCostType::ValDeser, 5, Some(8)), Ok(()));
    assert_eq!(apart.get_mem_bytes_consumed(), batched.get_mem_bytes_consumed());
    assert_eq!(apart.get_cpu_insns_consumed(), batched.get_cpu_insns_consumed() + 4 * 130);
    assert_eq!(batched.get_tracker(ContractCostType::ValDeser), (5, Some(40)));
    assert_eq!(apart.get_tracker(ContractCostType::ValDeser), (5, Some(40)));
    assert_eq!(batched.get_tracker(ContractCostType::ChargeBudget), (1, None));
}

#[test]
fn the_tracker_saturates() {
    let mut b = Budget::default();
    b.reset_unlimited();
    assert_eq!(b.batched_charge(ContractCostType::ValSer, u64::MAX, Some(2)), Ok(()));
    assert_eq!(b.get_tracker(ContractCostType::ValSer), (u64::MAX, Some(u64::MAX)));
    assert_eq!(b.charge(ContractCostType::ValSer, Some(2)), Ok(()));
    assert_eq!(b.get_tracker(ContractCostType::ValSer), (u64::MAX, Some(u64::MAX)));
    assert_eq!(b.get_cpu_insns_consumed(), u64::MAX);
    assert_eq!(b.get_cpu_insns_remaining(), 0);
}

#[test]
fn fuels_are_charged_to_both_resources() {
    let mut b = Budget::default();
    assert_eq!(b.apply_wasmi_fuels(1000, 64), Ok(()));
    assert_eq!(b.get_cpu_insns_consumed(), 7 * 1000 + 2 * 130);
    assert_eq!(b.get_mem_bytes_consumed(), 64);
    assert_eq!(b.get_tracker(ContractCostType::WasmInsnExec), (1000, None));
    assert_eq!(b.get_tracker(ContractCostType::WasmMemAlloc), (64, None));
    assert_eq!(b.apply_wasmi_fuels(u64::MAX, 64), Err(over()));
    assert_eq!(b.get_tracker(ContractCostType::WasmMemAlloc), (64, None));
}

#[test]
fn a_free_section_leaves_no_trace() {
    let mut b = Budget::default();
    let res = b.with_free_budget(|b| {
        b.charge(ContractCostType::VmInstantiation, Some(u64::MAX))?;
        b.charge(ContractCostType::VmInstantiation, None)?;
        Ok(17)
    });
    assert_eq!(res, Ok(17));
    assert!(b == Budget::default());
    assert_eq!(b.charge(ContractCostType::VecEntry, None), Ok(()));
    assert_eq!(b.get_cpu_insns_consumed(), 135);
}

#[test]
fn a_free_section_hands_on_an_error_and_ends() {
    let mut b = Budget::default();
    let failure = error(ScErrorType::Storage, ScErrorCode::MissingValue);
    let res: Result<(), HostError> = b.with_free_budget(|b| {
        b.reset_default();
        Err(failure)
    });
    assert_eq!(res, Err(failure));
    assert_eq!(b.charge(ContractCostType::VecEntry, None), Ok(()));
    assert_eq!(b.get_cpu_insns_consumed(), 135);
}

#[test]
fn free_sections_nest() {
    let mut b = Budget::default();
    let res = b.with_free_budget(|b| {
        b.with_free_budget(|b| b.charge(ContractCostType::VecEntry, None))?;
        b.charge(ContractCostType::VecEntry, None)
    });
    assert_eq!(res, Ok(()));
    assert!(b == Budget::default());
    let prev = b.begin_free();
    assert!(prev);
    assert!(!b.begin_free());
    b.end_free(prev);
    assert!(b == Budget::default());
}

#[test]
fn resets_forget_charges() {
    let mut b = Budget::default();
    assert_eq!(b.charge(ContractCostType::ValSer, Some(100)), Ok(()));
    b.reset_tracker();
    assert_eq!(b.get_tracker(ContractCostType::ValSer), (0, Some(0)));
    assert_eq!(b.get_tracker(ContractCostType::ChargeBudget), (0, None));
    assert_eq!(b.get_cpu_insns_consumed(), 817);
    b.reset_limits(1000, 2000);
    assert_eq!(b.get_cpu_insns_remaining(), 1000);
    assert_eq!(b.get_mem_bytes_remaining(), 2000);
    assert_eq!(b.charge(ContractCostType::ValSer, Some(100)), Ok(()));
    b.reset_unlimited_cpu();
    assert_eq!(b.get_cpu_insns_remaining(), u64::MAX);
    assert_eq!(b.get_mem_bytes_remaining(), 2000 - 309);
    assert_eq!(b.get_tracker(ContractCostType::ValSer), (0, Some(0)));
    assert_eq!(b.charge(ContractCostType::ValSer, Some(100)), Ok(()));
    b.reset_unlimited_mem();
    assert_eq!(b.get_mem_bytes_remaining(), u64::MAX);
    assert_eq!(b.get_cpu_insns_consumed(), 817);
    b.reset_default();
    assert!(b == Budget::default());
}

#[test]
fn an_unlimited_budget_is_one_with_the_greatest_limits() {
    let mut a = Budget::default();
    let mut b = Budget::default();
    assert_eq!(a.charge(ContractCostType::VecEntry, None), Ok(()));
    a.reset_unlimited();
    b.reset_limits(u64::MAX, u64::MAX);
    assert!(a == b);
    assert_eq!(a.batched_charge(ContractCostType::VecEntry, u64::MAX, None), Ok(()));
    assert_eq!(a.batched_charge(ContractCostType::VecEntry, u64::MAX, None), Ok(()));
}

#[test]
fn a_budget_with_reset_models_is_free() {
    let mut b = Budget::default();
    b.reset_models();
    assert_eq!(b.batched_charge(ContractCostType::VmInstantiation, 9, Some(9)), Ok(()));
    assert_eq!(b.get_cpu_insns_consumed(), 0);
    assert_eq!(b.get_mem_bytes_consumed(), 0);
    assert_eq!(b.get_tracker(ContractCostType::VmInstantiation), (9, Some(81)));
}

#[test]
fn a_short_configuration_has_models_for_some_charges() {
    let short = ContractCostParams(vec![model(1, 0); 22]);
    let mut b = Budget::from_configs(1000, 1000, short, ContractCostParams(vec![]));
    assert!(b.has_cpu_model(ContractCostType::ChargeBudget));
    assert!(!b.has_cpu_model(ContractCostType::Int256Mul));
    assert!(!b.has_mem_model(ContractCostType::WasmInsnExec));
    assert!(!b.has_models_for_charge(ContractCostType::Int256Mul, 1, None));
    assert!(!b.has_models_for_charge(ContractCostType::VecEntry, 1, None));
    // refused before a cost model is needed
    assert!(b.has_models_for_charge(ContractCostType::ValSer, 1, None));
    assert_eq!(b.charge(ContractCostType::ValSer, None), Err(mismatch()));
    // refused on the cpu before the memory is charged
    assert!(b.has_models_for_charge(ContractCostType::VecEntry, 1000, None));
    assert_eq!(b.batched_charge(ContractCostType::VecEntry, 1000, None), Err(over()));
    // over budget, the overhead is refused before the model of the work is needed
    assert!(b.has_models_for_charge(ContractCostType::Int256Mul, 1, None));
    assert_eq!(b.charge(ContractCostType::Int256Mul, None), Err(over()));
    // nothing is needed while the budget is disabled
    assert!(b.begin_free());
    assert!(b.has_models_for_charge(ContractCostType::Int256Mul, 1, None));
    assert_eq!(b.charge(ContractCostType::Int256Mul, None), Ok(()));
}

#[test]
fn a_budget_gives_itself() {
    let mut b = Budget::default();
    assert_eq!(b.as_budget_mut().charge(ContractCostType::VecEntry, None), Ok(()));
    assert_eq!(b.as_budget().get_cpu_insns_consumed(), 135);
}

#[test]
fn the_default_budget_is_a_configuration() {
    let mut cpu = vec![];
    let mut mem = vec![];
    for ty in ContractCostType::variants() {
        let mut cpu_model = model(-3, -3);
        let mut mem_model = model(-3, -3);
        set_default_cpu_model(ty, &mut cpu_model);
        set_default_mem_model(ty, &mut mem_model);
        cpu.push(cpu_model);
        mem.push(mem_model);
    }
    assert_eq!(cpu[4], model(43, 1));
    assert_eq!(mem[18], model(117871, 40));
    let b = Budget::from_configs(
        40_000_000,
        0x320_0000,
        ContractCostParams(cpu),
        ContractCostParams(mem),
    );
    assert!(b == Budget::default());
}

#[test]
fn the_tracker_does_not_limit() {
    let mut a = Budget::from_configs(50, 50, uniform(10, 0), uniform(3, 0));
    let mut b = Budget::from_configs(50, 50, uniform(10, 0), uniform(3, 0));
    for _ in 0..3 {
        let answer = a.charge(ContractCostType::MapEntry, None);
        assert_eq!(b.charge(ContractCostType::MapEntry, None), answer);
        b.reset_tracker();
        assert_eq!(a.get_cpu_insns_consumed(), b.get_cpu_insns_consumed());
        assert_eq!(a.get_mem_bytes_consumed(), b.get_mem_bytes_consumed());
    }
    assert_eq!(a.get_cpu_insns_consumed(), 60);
    assert_eq!(a.get_tracker(ContractCostType::MapEntry), (3, None));
    assert_eq!(b.get_tracker(ContractCostType::MapEntry), (0, None));
}
