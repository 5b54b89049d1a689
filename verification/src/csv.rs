//! The summary of a benchmark as csv text.

use crate::cells::{
    body_cells, header_cells, summary_header, summary_rows, FactorTable, FactorTableView,
};
use crate::estimate::Estimate;
use crate::text::{join_with, joined};
use vstd::prelude::*;
use vstd::string::StringExecFns;

verus! {

/// One line of csv: the cells separated by commas, and a line feed.
pub open spec fn csv_line(cells: Seq<Seq<char>>) -> Seq<char> {
    joined(cells, seq![',']) + seq!['\n']
}

/// The csv text of the rows: their lines, one after another.
pub open spec fn csv_lines(rows: Seq<Seq<Seq<char>>>) -> Seq<char>
    decreases rows.len(),
{
    if rows.len() == 0 {
        Seq::empty()
    } else {
        csv_lines(rows.drop_last()) + csv_line(rows.last())
    }
}

/// The csv text of the summary: the line of the title row, then the line
/// of every treatment.
pub open spec fn summary_csv_text(
    inputs: FactorTableView,
    algs: FactorTableView,
    estimates: Seq<Seq<Option<Estimate>>>,
) -> Seq<char> {
    csv_line(header_cells(inputs.names, algs.names)) + csv_lines(
        body_cells(inputs.levels, algs.levels, estimates),
    )
}

/// Writes rows as csv: the cells of a row separated by commas, every row
/// ended by a line feed.
pub fn csv_text(rows: &[Vec<String>]) -> (text: String)
    ensures
        text@ == csv_lines(rows.deep_view()),
{
    let ghost all = rows.deep_view();
    let mut text = String::new();
    let mut k: usize = 0;
    while k < rows.len()
        invariant
            k <= rows.len(),
            all == rows.deep_view(),
            text@ == csv_lines(all.take(k as int)),
        decreases rows.len() - k,
    {
        proof {
            reveal_strlit(",");
            reveal_strlit("\n");
            assert(all.take(k + 1).drop_last() =~= all.take(k as int));
            assert(all[k as int] == rows[k as int].deep_view());
        }
        let line = join_with(rows[k].as_slice(), ",");
        text.append(line.as_str());
        text.append("\n");
        assert(","@ =~= seq![',']);
        assert(text@ =~= csv_lines(all.take(k as int)) + csv_line(all[k as int]));
        k += 1;
    }
    assert(all.take(k as int) =~= all);
    text
}

/// The csv text of the summary of the given levels and estimates.
pub fn summary_csv(
    inputs: &FactorTable,
    algs: &FactorTable,
    estimates: &[Vec<Option<Estimate>>],
) -> (text: String)
    ensures
        text@ == summary_csv_text(inputs@, algs@, estimates.deep_view()),
{
    proof {
        reveal_strlit(",");
        reveal_strlit("\n");
    }
    let header = summary_header(inputs.names.as_slice(), algs.names.as_slice());
    let rows = summary_rows(inputs.levels.as_slice(), algs.levels.as_slice(), estimates);
    let mut text = join_with(header.as_slice(), ",");
    text.append("\n");
    let body = csv_text(rows.as_slice());
    text.append(body.as_str());
    assert(","@ =~= seq![',']);
    assert("\n"@ =~= seq!['\n']);
    text
}

} // verus!
