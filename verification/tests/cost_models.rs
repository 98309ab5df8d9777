use soroban_budget::{
    ContractCostParamEntry, ContractCostType, ExtensionPoint, HostCostModel, HostError,
    ScErrorCode, ScErrorType,
};

fn model(const_term: i64, linear_term: i64) -> ContractCostParamEntry {
    ContractCostParamEntry { ext: ExtensionPoint::V0, const_term, linear_term }
}

fn invalid() -> HostError {
    HostError { error_type: ScErrorType::Context, code: ScErrorCode::InvalidInput }
}

#[test]
fn evaluate_is_linear_in_the_input() {
    assert_eq!(model(43, 2).evaluate(Some(10)), Ok(63));
    assert_eq!(model(43, 2).evaluate(Some(0)), Ok(43));
    assert_eq!(model(43, 2).evaluate(None), Ok(43));
    assert_eq!(model(43, 0).evaluate(Some(1000)), Ok(43));
}

#[test]
fn evaluate_refuses_negative_terms() {
    assert_eq!(model(-1, 2).evaluate(Some(10)), Err(invalid()));
    assert_eq!(model(1, -2).evaluate(None), Err(invalid()));
    assert_eq!(model(i64::MIN, i64::MIN).evaluate(Some(0)), Err(invalid()));
}

#[test]
fn evaluate_saturates() {
    assert_eq!(model(1, i64::MAX).evaluate(Some(3)), Ok(u64::MAX));
    assert_eq!(model(2, 1).evaluate(Some(u64::MAX - 1)), Ok(u64::MAX));
    assert_eq!(model(1, 1).evaluate(Some(u64::MAX - 1)), Ok(u64::MAX));
    assert_eq!(model(1, 1).evaluate(Some(u64::MAX - 2)), Ok(u64::MAX - 1));
}

#[test]
fn a_reset_model_is_free() {
    let mut m = model(7, 3);
    m.reset();
    assert_eq!(m, model(0, 0));
    assert_eq!(m.evaluate(Some(u64::MAX)), Ok(0));
    let mut n = model(-7, -3);
    n.reset();
    assert_eq!(n.evaluate(None), Ok(0));
}

#[test]
fn cost_grows_with_the_input() {
    let m = model(5, 7);
    assert_eq!(m.evaluate(None), m.evaluate(Some(0)));
    assert!(m.evaluate(Some(3)).unwrap() < m.evaluate(Some(4)).unwrap());
}

#[test]
fn kinds_are_numbered_in_order() {
    let all = ContractCostType::variants();
    assert_eq!(all.len(), 31);
    for (i, ty) in all.iter().enumerate() {
        assert_eq!(ty.index(), i);
        assert_eq!(*ty as usize, i);
        assert_eq!(ty.name(), format!("{:?}", ty));
    }
    assert_eq!(ContractCostType::WasmInsnExec.index(), 0);
    assert_eq!(ContractCostType::ChargeBudget.index(), 21);
    assert_eq!(ContractCostType::Int256Shift.index(), 30);
}

#[test]
fn twelve_kinds_have_an_input() {
    let with_input: Vec<ContractCostType> =
        ContractCostType::variants().into_iter().filter(|ty| ty.has_input()).collect();
    assert_eq!(
        with_input,
        vec![
            ContractCostType::HostMemAlloc,
            ContractCostType::HostMemCpy,
            ContractCostType::HostMemCmp,
            ContractCostType::ValSer,
            ContractCostType::ValDeser,
            ContractCostType::ComputeSha256Hash,
            ContractCostType::VerifyEd25519Sig,
            ContractCostType::VmMemRead,
            ContractCostType::VmMemWrite,
            ContractCostType::VmInstantiation,
            ContractCostType::VmCachedInstantiation,
            ContractCostType::ComputeKeccak256Hash,
        ]
    );
}

#[test]
fn an_error_is_made_of_its_parts() {
    let error = HostError::from((ScErrorType::Budget, ScErrorCode::ExceededLimit));
    assert_eq!(error.error_type, ScErrorType::Budget);
    assert_eq!(error.code, ScErrorCode::ExceededLimit);
}
