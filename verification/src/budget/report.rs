//! What a budget holds, as text for people to read.

use vstd::prelude::*;

use super::{Budget, BudgetImpl, BudgetView};
use crate::cost_model::ContractCostParamEntry;
use crate::cost_type::{law_positions_number_the_kinds, ContractCostType, COST_TYPE_COUNT};
use crate::dimension::{BudgetDimension, DimensionView};
use crate::text::{
    cell, cell_text, decimal, decimal_text, optional_decimal, optional_decimal_text, repeated,
    repeated_text, signed_decimal, signed_decimal_text,
};

verus! {

impl ContractCostParamEntry {
    /// A cost model as it is written in source code.
    pub open spec fn debug_view(self) -> Seq<char> {
        "ContractCostParamEntry { ext: V0, const_term: "@ + signed_decimal(self.const_term as int)
            + ", linear_term: "@ + signed_decimal(self.linear_term as int) + " }"@
    }

    /// Writes a cost model as it is written in source code.
    pub fn debug_text(&self) -> (text: String)
        ensures
            text@ == self.debug_view(),
    {
        let mut text = "ContractCostParamEntry { ext: V0, const_term: ".to_owned();
        text.append(signed_decimal_text(self.const_term).as_str());
        text.append(", linear_term: ");
        text.append(signed_decimal_text(self.linear_term).as_str());
        text.append(" }");
        text
    }
}

impl DimensionView {
    /// The lines on one kind of work: what it has used, and its cost model.
    pub open spec fn debug_lines(self, ty: ContractCostType) -> Seq<char> {
        "CostType "@ + ty.text() + ", count "@ + decimal(self.counts[ty.position()] as nat)
            + "\nmodel: "@ + self.model(ty).debug_view() + "\n"@
    }

    /// The limit and the total, and then the lines on the first `n` kinds of work.
    pub open spec fn debug_view(self, n: int) -> Seq<char>
        decreases n,
    {
        if n <= 0 {
            "limit: "@ + decimal(self.limit as nat) + ", total_count: "@ + decimal(
                self.total_count as nat,
            ) + "\n"@
        } else {
            self.debug_view(n - 1) + self.debug_lines(ContractCostType::all()[n - 1])
        }
    }

    /// Whether there is a cost model for each kind of work.
    pub open spec fn covers_all(self) -> bool {
        self.cost_models.len() >= COST_TYPE_COUNT
    }
}

impl BudgetDimension {
    /// Writes the limit and the total, and for each kind of work what it has used and its
    /// cost model.
    pub fn debug_text(&self) -> (text: String)
        requires
            self@.wf(),
            self@.covers_all(),
        ensures
            text@ == self@.debug_view(COST_TYPE_COUNT as int),
    {
        let variants = ContractCostType::variants();
        let mut text = "limit: ".to_owned();
        text.append(decimal_text(self.get_limit()).as_str());
        text.append(", total_count: ");
        text.append(decimal_text(self.get_total_count()).as_str());
        text.append("\n");
        let mut i: usize = 0;
        while i < COST_TYPE_COUNT
            invariant
                i <= COST_TYPE_COUNT,
                self@.wf(),
                self@.covers_all(),
                variants@ == ContractCostType::all(),
                forall|j: int|
                    0 <= j < COST_TYPE_COUNT ==> (#[trigger] variants@[j]).position() == j,
                text@ == self@.debug_view(i as int),
            decreases COST_TYPE_COUNT - i,
        {
            let ct = variants[i];
            proof {
                assert(variants@[i as int].position() == i);
            }
            let mut lines = "CostType ".to_owned();
            lines.append(ct.name());
            lines.append(", count ");
            lines.append(decimal_text(self.get_count(ct)).as_str());
            lines.append("\nmodel: ");
            lines.append(self.get_cost_model(ct).debug_text().as_str());
            lines.append("\n");
            text.append(lines.as_str());
            i = i + 1;
        }
        text
    }
}

/// A line across the page.
pub open spec fn ruler(width: nat) -> Seq<char> {
    repeated('=', width) + "\n"@
}

impl BudgetView {
    /// The limit on each resource and what was used of it, between two lines across the
    /// page.
    pub open spec fn usage_view(self, width: nat) -> Seq<char> {
        ruler(width) + "Cpu limit: "@ + decimal(self.cpu_insns.limit as nat) + "; used: "@
            + decimal(self.cpu_insns.total_count as nat) + "\nMem limit: "@ + decimal(
            self.mem_bytes.limit as nat,
        ) + "; used: "@ + decimal(self.mem_bytes.total_count as nat) + "\n"@ + ruler(width)
    }

    /// The row on one kind of work in the short table: what it has used of each
    /// resource.
    pub open spec fn display_row(self, ty: ContractCostType) -> Seq<char> {
        cell(ty.text(), 25) + cell(decimal(self.cpu_insns.counts[ty.position()] as nat), 15)
            + cell(decimal(self.mem_bytes.counts[ty.position()] as nat), 15) + "\n"@
    }

    /// The short table down to the rows on the first `n` kinds of work.
    pub open spec fn display_rows(self, n: int) -> Seq<char>
        decreases n,
    {
        if n <= 0 {
            self.usage_view(55) + cell("CostType"@, 25) + cell("cpu_insns"@, 15) + cell(
                "mem_bytes"@,
                15,
            ) + "\n"@
        } else {
            self.display_rows(n - 1) + self.display_row(ContractCostType::all()[n - 1])
        }
    }

    /// The short table.
    pub open spec fn display_view(self) -> Seq<char> {
        self.display_rows(COST_TYPE_COUNT as int) + ruler(55)
    }

    /// The row on one kind of work in the long table: how often it was charged, the total
    /// of its sizes, what it has used of each resource, and the terms of its cost models.
    pub open spec fn debug_row(self, ty: ContractCostType) -> Seq<char> {
        cell(ty.text(), 25) + cell(decimal(self.tracker[ty.position()].0 as nat), 15) + cell(
            optional_decimal(self.tracker[ty.position()].1),
            15,
        ) + cell(decimal(self.cpu_insns.counts[ty.position()] as nat), 15) + cell(
            decimal(self.mem_bytes.counts[ty.position()] as nat),
            15,
        ) + cell(signed_decimal(self.cpu_insns.model(ty).const_term as int), 20) + cell(
            signed_decimal(self.cpu_insns.model(ty).linear_term as int),
            20,
        ) + cell(signed_decimal(self.mem_bytes.model(ty).const_term as int), 20) + cell(
            signed_decimal(self.mem_bytes.model(ty).linear_term as int),
            20,
        ) + "\n"@
    }

    /// The long table down to the rows on the first `n` kinds of work.
    pub open spec fn debug_rows(self, n: int) -> Seq<char>
        decreases n,
    {
        if n <= 0 {
            self.usage_view(165) + cell("CostType"@, 25) + cell("iterations"@, 15) + cell(
                "input"@,
                15,
            ) + cell("cpu_insns"@, 15) + cell("mem_bytes"@, 15) + cell("const_term_cpu"@, 20)
                + cell("lin_term_cpu"@, 20) + cell("const_term_mem"@, 20) + cell(
                "lin_term_mem"@,
                20,
            ) + "\n"@
        } else {
            self.debug_rows(n - 1) + self.debug_row(ContractCostType::all()[n - 1])
        }
    }

    /// The long table.
    pub open spec fn debug_view(self) -> Seq<char> {
        self.debug_rows(COST_TYPE_COUNT as int) + ruler(165)
    }
}

fn ruler_text(width: usize) -> (text: String)
    ensures
        text@ == ruler(width as nat),
{
    proof {
        reveal_strlit("=");
    }
    let mut text = repeated_text("=", width);
    text.append("\n");
    text
}

impl BudgetImpl {
    fn usage_text(&self, width: usize) -> (text: String)
        ensures
            text@ == self@.usage_view(width as nat),
    {
        let mut text = ruler_text(width);
        text.append("Cpu limit: ");
        text.append(decimal_text(self.cpu_insns.get_limit()).as_str());
        text.append("; used: ");
        text.append(decimal_text(self.cpu_insns.get_total_count()).as_str());
        text.append("\nMem limit: ");
        text.append(decimal_text(self.mem_bytes.get_limit()).as_str());
        text.append("; used: ");
        text.append(decimal_text(self.mem_bytes.get_total_count()).as_str());
        text.append("\n");
        text.append(ruler_text(width).as_str());
        text
    }

    fn display_row_text(&self, ct: ContractCostType) -> (row: String)
        requires
            self@.wf(),
            self@.cpu_insns.covers(ct),
            self@.mem_bytes.covers(ct),
        ensures
            row@ == self@.display_row(ct),
    {
        let mut row = cell_text(ct.name(), 25);
        row.append(cell_text(decimal_text(self.cpu_insns.get_count(ct)).as_str(), 15).as_str());
        row.append(cell_text(decimal_text(self.mem_bytes.get_count(ct)).as_str(), 15).as_str());
        row.append("\n");
        row
    }

    /// Writes the short table: what each kind of work has used of each resource.
    pub fn display_text(&self) -> (text: String)
        requires
            self@.wf(),
            self@.cpu_insns.covers_all(),
            self@.mem_bytes.covers_all(),
        ensures
            text@ == self@.display_view(),
    {
        let variants = ContractCostType::variants();
        let mut text = self.usage_text(55);
        text.append(cell_text("CostType", 25).as_str());
        text.append(cell_text("cpu_insns", 15).as_str());
        text.append(cell_text("mem_bytes", 15).as_str());
        text.append("\n");
        let mut i: usize = 0;
        while i < COST_TYPE_COUNT
            invariant
                i <= COST_TYPE_COUNT,
                self@.wf(),
                self@.cpu_insns.covers_all(),
                self@.mem_bytes.covers_all(),
                variants@ == ContractCostType::all(),
                forall|j: int|
                    0 <= j < COST_TYPE_COUNT ==> (#[trigger] variants@[j]).position() == j,
                text@ == self@.display_rows(i as int),
            decreases COST_TYPE_COUNT - i,
        {
            proof {
                assert(variants@[i as int].position() == i);
            }
            text.append(self.display_row_text(variants[i]).as_str());
            i = i + 1;
        }
        text.append(ruler_text(55).as_str());
        text
    }

    fn debug_row_text(&self, ct: ContractCostType) -> (row: String)
        requires
            self@.wf(),
            self@.cpu_insns.covers(ct),
            self@.mem_bytes.covers(ct),
        ensures
            row@ == self@.debug_row(ct),
    {
        proof {
            law_positions_number_the_kinds();
        }
        let entry = self.tracker[ct.index()];
        let cpu = self.cpu_insns.get_cost_model(ct);
        let mem = self.mem_bytes.get_cost_model(ct);
        let mut row = cell_text(ct.name(), 25);
        row.append(cell_text(decimal_text(entry.0).as_str(), 15).as_str());
        row.append(cell_text(optional_decimal_text(entry.1).as_str(), 15).as_str());
        row.append(cell_text(decimal_text(self.cpu_insns.get_count(ct)).as_str(), 15).as_str());
        row.append(cell_text(decimal_text(self.mem_bytes.get_count(ct)).as_str(), 15).as_str());
        row.append(cell_text(signed_decimal_text(cpu.const_term).as_str(), 20).as_str());
        row.append(cell_text(signed_decimal_text(cpu.linear_term).as_str(), 20).as_str());
        row.append(cell_text(signed_decimal_text(mem.const_term).as_str(), 20).as_str());
        row.append(cell_text(signed_decimal_text(mem.linear_term).as_str(), 20).as_str());
        row.append("\n");
        row
    }

    /// Writes the long table: for each kind of work how often it was charged, the total of
    /// its sizes, what it has used of each resource, and the terms of its cost models.
    pub fn debug_text(&self) -> (text: String)
        requires
            self@.wf(),
            self@.cpu_insns.covers_all(),
            self@.mem_bytes.covers_all(),
        ensures
            text@ == self@.debug_view(),
    {
        let variants = ContractCostType::variants();
        let mut text = self.usage_text(165);
        text.append(cell_text("CostType", 25).as_str());
        text.append(cell_text("iterations", 15).as_str());
        text.append(cell_text("input", 15).as_str());
        text.append(cell_text("cpu_insns", 15).as_str());
        text.append(cell_text("mem_bytes", 15).as_str());
        text.append(cell_text("const_term_cpu", 20).as_str());
        text.append(cell_text("lin_term_cpu", 20).as_str());
        text.append(cell_text("const_term_mem", 20).as_str());
        text.append(cell_text("lin_term_mem", 20).as_str());
        text.append("\n");
        let mut i: usize = 0;
        while i < COST_TYPE_COUNT
            invariant
                i <= COST_TYPE_COUNT,
                self@.wf(),
                self@.cpu_insns.covers_all(),
                self@.mem_bytes.covers_all(),
                variants@ == ContractCostType::all(),
                forall|j: int|
                    0 <= j < COST_TYPE_COUNT ==> (#[trigger] variants@[j]).position() == j,
                text@ == self@.debug_rows(i as int),
            decreases COST_TYPE_COUNT - i,
        {
            proof {
                assert(variants@[i as int].position() == i);
            }
            text.append(self.debug_row_text(variants[i]).as_str());
            i = i + 1;
        }
        text.append(ruler_text(165).as_str());
        text
    }
}

impl Budget {
    /// Writes the short table and an empty line.
    pub fn display_text(&self) -> (text: String)
        requires
            self@.wf(),
            self@.cpu_insns.covers_all(),
            self@.mem_bytes.covers_all(),
        ensures
            text@ == self@.display_view() + "\n"@,
    {
        let mut text = self.0.display_text();
        text.append("\n");
        text
    }

    /// Writes the long table and an empty line.
    pub fn debug_text(&self) -> (text: String)
        requires
            self@.wf(),
            self@.cpu_insns.covers_all(),
            self@.mem_bytes.covers_all(),
        ensures
            text@ == self@.debug_view() + "\n"@,
    {
        let mut text = self.0.debug_text();
        text.append("\n");
        text
    }
}

/// A text to which one row after the other is added is its beginning and then all rows.
proof fn lemma_rows_in_a_row(
    table: spec_fn(int) -> Seq<char>,
    row: spec_fn(int) -> Seq<char>,
    n: nat,
)
    requires
        forall|i: int| 0 < i <= n ==> #[trigger] table(i) == table(i - 1) + row(i - 1),
    ensures
        table(n as int) == table(0) + Seq::new(n, row).flatten(),
    decreases n,
{
    if n == 0 {
        assert(Seq::new(n, row).flatten() =~= Seq::<char>::empty());
        assert(table(0) + Seq::<char>::empty() =~= table(0));
    } else {
        let before = Seq::new((n - 1) as nat, row);
        lemma_rows_in_a_row(table, row, (n - 1) as nat);
        assert(Seq::new(n, row) =~= before.push(row(n - 1)));
        before.lemma_flatten_push(row(n - 1));
        assert(table(0) + before.flatten() + row(n - 1) =~= table(0) + (before.flatten() + row(
            n - 1,
        )));
    }
}

/// Each position below thirty-one is that of the kind that is listed there.
proof fn lemma_position_of(i: int)
    requires
        0 <= i < 31,
    ensures
        ContractCostType::all()[i].position() == i,
{
    law_positions_number_the_kinds();
}

/// A cost model is written with both of its terms.
pub proof fn law_model_text_gives_both_terms(model: ContractCostParamEntry)
    ensures
        model.debug_view() == "ContractCostParamEntry { ext: V0, const_term: "@ + signed_decimal(
            model.const_term as int,
        ) + ", linear_term: "@ + signed_decimal(model.linear_term as int) + " }"@,
{
}

/// The text on a resource is a line with its limit and its total, and then, for each of the
/// thirty-one positions, a line with the name and the count there and one with the model
/// there.
pub proof fn law_resource_text_goes_through_the_positions(dim: DimensionView) -> (rows: Seq<
    Seq<char>,
>)
    ensures
        dim.covers_all() <==> 31 <= dim.cost_models.len(),
        rows.len() == 31,
        forall|i: int|
            0 <= i < 31 ==> #[trigger] rows[i] == "CostType "@ + ContractCostType::all()[i].text()
                + ", count "@ + decimal(dim.counts[i] as nat) + "\nmodel: "@
                + dim.cost_models[i].debug_view() + "\n"@,
        dim.debug_view(31) == "limit: "@ + decimal(dim.limit as nat) + ", total_count: "@ + decimal(
            dim.total_count as nat,
        ) + "\n"@ + rows.flatten(),
{
    let table = |n: int| dim.debug_view(n);
    let row = |i: int| dim.debug_lines(ContractCostType::all()[i]);
    let rows = Seq::new(31, row);
    assert forall|i: int| 0 <= i < 31 implies #[trigger] rows[i] == "CostType "@
        + ContractCostType::all()[i].text() + ", count "@ + decimal(dim.counts[i] as nat)
        + "\nmodel: "@ + dim.cost_models[i].debug_view() + "\n"@ by {
        lemma_position_of(i);
    }
    lemma_rows_in_a_row(table, row, 31);
    assert(table(31) == dim.debug_view(31));
    assert(table(0) == dim.debug_view(0));
    rows
}

/// Each table begins with the limits and the totals, first of the cpu and then of memory,
/// between two lines across the page.
pub proof fn law_usage_text_gives_limits_and_totals(b: BudgetView, width: nat)
    ensures
        b.usage_view(width) == repeated('=', width) + "\n"@ + "Cpu limit: "@ + decimal(
            b.cpu_insns.limit as nat,
        ) + "; used: "@ + decimal(b.cpu_insns.total_count as nat) + "\nMem limit: "@ + decimal(
            b.mem_bytes.limit as nat,
        ) + "; used: "@ + decimal(b.mem_bytes.total_count as nat) + "\n"@ + (repeated('=', width)
            + "\n"@),
{
}

/// The short table has, below its head and for each of the thirty-one positions, a row with
/// the name and the counts there, of the cpu and of memory, and ends in a line across the
/// page.
pub proof fn law_short_table_goes_through_the_positions(b: BudgetView) -> (rows: Seq<Seq<char>>)
    ensures
        rows.len() == 31,
        forall|i: int|
            0 <= i < 31 ==> #[trigger] rows[i] == cell(ContractCostType::all()[i].text(), 25)
                + cell(decimal(b.cpu_insns.counts[i] as nat), 15) + cell(
                decimal(b.mem_bytes.counts[i] as nat),
                15,
            ) + "\n"@,
        b.display_view() == b.usage_view(55) + cell("CostType"@, 25) + cell("cpu_insns"@, 15)
            + cell("mem_bytes"@, 15) + "\n"@ + rows.flatten() + (repeated('=', 55) + "\n"@),
{
    let table = |n: int| b.display_rows(n);
    let row = |i: int| b.display_row(ContractCostType::all()[i]);
    let rows = Seq::new(31, row);
    assert forall|i: int| 0 <= i < 31 implies #[trigger] rows[i] == cell(
        ContractCostType::all()[i].text(),
        25,
    ) + cell(decimal(b.cpu_insns.counts[i] as nat), 15) + cell(
        decimal(b.mem_bytes.counts[i] as nat),
        15,
    ) + "\n"@ by {
        lemma_position_of(i);
    }
    lemma_rows_in_a_row(table, row, 31);
    assert(table(31) == b.display_rows(31));
    assert(table(0) == b.display_rows(0));
    rows
}

/// The long table has, below its head and for each of the thirty-one positions, a row with
/// the name, the tracker's entry, the counts and the terms of the models there, and ends in
/// a line across the page.
pub proof fn law_long_table_goes_through_the_positions(b: BudgetView) -> (rows: Seq<Seq<char>>)
    ensures
        rows.len() == 31,
        forall|i: int|
            0 <= i < 31 ==> #[trigger] rows[i] == cell(ContractCostType::all()[i].text(), 25)
                + cell(decimal(b.tracker[i].0 as nat), 15) + cell(
                optional_decimal(b.tracker[i].1),
                15,
            ) + cell(decimal(b.cpu_insns.counts[i] as nat), 15) + cell(
                decimal(b.mem_bytes.counts[i] as nat),
                15,
            ) + cell(signed_decimal(b.cpu_insns.cost_models[i].const_term as int), 20) + cell(
                signed_decimal(b.cpu_insns.cost_models[i].linear_term as int),
                20,
            ) + cell(signed_decimal(b.mem_bytes.cost_models[i].const_term as int), 20) + cell(
                signed_decimal(b.mem_bytes.cost_models[i].linear_term as int),
                20,
            ) + "\n"@,
        b.debug_view() == b.usage_view(165) + cell("CostType"@, 25) + cell("iterations"@, 15)
            + cell("input"@, 15) + cell("cpu_insns"@, 15) + cell("mem_bytes"@, 15) + cell(
            "const_term_cpu"@,
            20,
        ) + cell("lin_term_cpu"@, 20) + cell("const_term_mem"@, 20) + cell("lin_term_mem"@, 20)
            + "\n"@ + rows.flatten() + (repeated('=', 165) + "\n"@),
{
    let table = |n: int| b.debug_rows(n);
    let row = |i: int| b.debug_row(ContractCostType::all()[i]);
    let rows = Seq::new(31, row);
    assert forall|i: int| 0 <= i < 31 implies #[trigger] rows[i] == cell(
        ContractCostType::all()[i].text(),
        25,
    ) + cell(decimal(b.tracker[i].0 as nat), 15) + cell(optional_decimal(b.tracker[i].1), 15)
        + cell(decimal(b.cpu_insns.counts[i] as nat), 15) + cell(
        decimal(b.mem_bytes.counts[i] as nat),
        15,
    ) + cell(signed_decimal(b.cpu_insns.cost_models[i].const_term as int), 20) + cell(
        signed_decimal(b.cpu_insns.cost_models[i].linear_term as int),
        20,
    ) + cell(signed_decimal(b.mem_bytes.cost_models[i].const_term as int), 20) + cell(
        signed_decimal(b.mem_bytes.cost_models[i].linear_term as int),
        20,
    ) + "\n"@ by {
        lemma_position_of(i);
    }
    lemma_rows_in_a_row(table, row, 31);
    assert(table(31) == b.debug_rows(31));
    assert(table(0) == b.debug_rows(0));
    rows
}

} // verus!
