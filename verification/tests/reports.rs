use soroban_budget::text::{
    cell_text, decimal_text, optional_decimal_text, repeated_text, signed_decimal_text,
};
use soroban_budget::{
    Budget, BudgetDimension, BudgetImpl, ContractCostParamEntry, ContractCostType, ExtensionPoint,
};

#[test]
fn numbers_are_written_in_decimal() {
    for n in [0, 1, 9, 10, 11, 99, 100, 1234567890, u64::MAX - 1, u64::MAX] {
        assert_eq!(decimal_text(n), format!("{}", n));
        assert_eq!(optional_decimal_text(Some(n)), format!("{:?}", Some(n)));
    }
    for n in [0, 1, -1, -9, -10, 123, -123, i64::MAX, i64::MIN, i64::MIN + 1] {
        assert_eq!(signed_decimal_text(n), format!("{}", n));
    }
    assert_eq!(optional_decimal_text(None), "None");
}

#[test]
fn cells_are_padded_on_the_right() {
    assert_eq!(cell_text("abc", 5), "abc  ");
    assert_eq!(cell_text("abc", 3), "abc");
    assert_eq!(cell_text("abcd", 3), "abcd");
    assert_eq!(cell_text("", 2), "  ");
    assert_eq!(cell_text("\u{e9}", 3), format!("{:<3}", "\u{e9}"));
    assert_eq!(repeated_text("=", 4), "====");
    assert_eq!(repeated_text("=", 0), "");
}

#[test]
fn a_model_is_written_as_in_source_code() {
    let model =
        ContractCostParamEntry { ext: ExtensionPoint::V0, const_term: -5, linear_term: 77 };
    assert_eq!(
        model.debug_text(),
        "ContractCostParamEntry { ext: V0, const_term: -5, linear_term: 77 }"
    );
    assert_eq!(model.debug_text(), format!("{:?}", model));
}

#[test]
fn a_dimension_is_written_kind_by_kind() {
    let mut dim = BudgetDimension::new();
    dim.reset(500);
    dim.get_cost_model_mut(ContractCostType::MapEntry).const_term = 9;
    assert_eq!(dim.charge(ContractCostType::MapEntry, 2, None), Ok(()));
    let mut expected = format!("limit: {}, total_count: {}\n", 500, 18);
    for ct in ContractCostType::variants() {
        expected += &format!("CostType {:?}, count {}\n", ct, dim.get_count(ct));
        expected += &format!("model: {:?}\n", dim.get_cost_model(ct));
    }
    assert_eq!(dim.debug_text(), expected);
}

/// What each kind has used of the budget that `used` makes: iterations, input, cpu, mem.
fn rows(ct: ContractCostType) -> (u64, Option<u64>, u64, u64) {
    match ct {
        ContractCostType::ValSer => (2, Some(200), 2 * 687, 2 * 309),
        ContractCostType::ChargeBudget => (1, None, 130, 0),
        _ => (0, if ct.has_input() { Some(0) } else { None }, 0, 0),
    }
}

fn used() -> Budget {
    let mut b = Budget::default();
    assert_eq!(b.batched_charge(ContractCostType::ValSer, 2, Some(100)), Ok(()));
    b
}

#[test]
fn the_short_table_has_a_row_for_each_kind() {
    let mut expected = format!("{:=<55}\n", "");
    expected += &format!("Cpu limit: {}; used: {}\n", 40_000_000, 130 + 2 * 687);
    expected += &format!("Mem limit: {}; used: {}\n", 52_428_800, 2 * 309);
    expected += &format!("{:=<55}\n", "");
    expected += &format!("{:<25}{:<15}{:<15}\n", "CostType", "cpu_insns", "mem_bytes");
    for ct in ContractCostType::variants() {
        let (_, _, cpu, mem) = rows(ct);
        expected += &format!("{:<25}{:<15}{:<15}\n", format!("{:?}", ct), cpu, mem);
    }
    expected += &format!("{:=<55}\n", "");
    assert_eq!(used().display_text(), expected + "\n");
}

#[test]
fn the_long_table_has_a_row_for_each_kind() {
    let b = BudgetImpl::default();
    let mut expected = format!("{:=<165}\n", "");
    expected += &format!("Cpu limit: {}; used: {}\n", 40_000_000, 0);
    expected += &format!("Mem limit: {}; used: {}\n", 52_428_800, 0);
    expected += &format!("{:=<165}\n", "");
    expected += &format!(
        "{:<25}{:<15}{:<15}{:<15}{:<15}{:<20}{:<20}{:<20}{:<20}\n",
        "CostType",
        "iterations",
        "input",
        "cpu_insns",
        "mem_bytes",
        "const_term_cpu",
        "lin_term_cpu",
        "const_term_mem",
        "lin_term_mem",
    );
    let text = b.debug_text();
    assert!(text.starts_with(&expected));
    assert!(text.ends_with(&format!("{:=<165}\n", "")));
    let lines: Vec<&str> = text.lines().collect();
    assert_eq!(lines.len(), 5 + 31 + 1);
    assert_eq!(
        lines[5 + ContractCostType::ValSer.index()],
        format!(
            "{:<25}{:<15}{:<15}{:<15}{:<15}{:<20}{:<20}{:<20}{:<20}",
            "ValSer", 0, "Some(0)", 0, 0, 587, 1, 9, 3
        )
    );
    let used_text = used().debug_text();
    let used_lines: Vec<&str> = used_text.lines().collect();
    assert_eq!(used_lines.len(), 5 + 31 + 2);
    for ct in ContractCostType::variants() {
        let (iterations, input, cpu, mem) = rows(ct);
        let start = format!(
            "{:<25}{:<15}{:<15}{:<15}{:<15}",
            format!("{:?}", ct),
            iterations,
            format!("{:?}", input),
            cpu,
            mem
        );
        assert!(used_lines[5 + ct.index()].starts_with(&start));
        // the terms of the models are the same as in a budget that was not used
        assert_eq!(used_lines[5 + ct.index()][85..], lines[5 + ct.index()][85..]);
    }
}
