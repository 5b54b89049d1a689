//! The summary of a benchmark as a table for the terminal, with the row of
//! every treatment set in the style of its rank.

use crate::cells::{
    body_cells, estimate_row, get_estimate_row, header_cells, summary_header, summary_rows,
    FactorTable, FactorTableView,
};
use crate::estimate::Estimate;
use crate::rank::{rank_row, ranks, Rank};
use vstd::prelude::*;

verus! {

/// A colour of the text of a cell.
#[derive(Clone, Copy, Debug, PartialEq, Eq, Structural)]
pub enum Color {
    Green,
    Red,
    /// A colour by its red, green and blue parts.
    Rgb(u8, u8, u8),
}

/// How the text of a cell is set: bold or not, and in which colour, if not
/// in the terminal's own.
#[derive(Clone, Copy, Debug, PartialEq, Eq, Structural)]
pub struct Style {
    pub bold: bool,
    pub foreground: Option<Color>,
}

/// A cell of the summary table: its text and how to show it.
#[derive(Debug, PartialEq, Eq)]
pub struct StyledCell {
    pub text: String,
    pub style: Style,
    /// Whether the text is set against the right edge of its column.
    pub right_aligned: bool,
}

/// A styled cell with its text as a sequence of characters.
pub struct StyledCellView {
    pub text: Seq<char>,
    pub style: Style,
    pub right_aligned: bool,
}

impl View for StyledCell {
    type V = StyledCellView;

    open spec fn view(&self) -> StyledCellView {
        StyledCellView { text: self.text@, style: self.style, right_aligned: self.right_aligned }
    }
}

impl DeepView for StyledCell {
    type V = StyledCellView;

    open spec fn deep_view(&self) -> StyledCellView {
        self@
    }
}

/// The summary as a table for the terminal.
#[derive(Debug, PartialEq, Eq)]
pub struct SummaryTable {
    pub title: Vec<StyledCell>,
    pub rows: Vec<Vec<StyledCell>>,
}

/// A summary table with its cells as views.
pub struct SummaryTableView {
    pub title: Seq<StyledCellView>,
    pub rows: Seq<Seq<StyledCellView>>,
}

impl View for SummaryTable {
    type V = SummaryTableView;

    open spec fn view(&self) -> SummaryTableView {
        SummaryTableView { title: self.title.deep_view(), rows: self.rows.deep_view() }
    }
}

/// The style of the title row.
pub open spec fn title_style() -> Style {
    Style { bold: true, foreground: None }
}

/// The style of the row of a treatment whose estimate has the given rank:
/// bold green for the best, bold red for the worst, dark grey where the
/// estimate is missing, the terminal's own otherwise.
pub open spec fn rank_style(rank: Rank) -> Style {
    match rank {
        Rank::Best => Style { bold: true, foreground: Some(Color::Green) },
        Rank::Worst => Style { bold: true, foreground: Some(Color::Red) },
        Rank::Intermediate => Style { bold: false, foreground: None },
        Rank::Missing => Style { bold: false, foreground: Some(Color::Rgb(50, 50, 50)) },
    }
}

/// The cells of one row in one style. The last cell, which holds the time,
/// is set against the right edge.
pub open spec fn styled(cells: Seq<Seq<char>>, style: Style) -> Seq<StyledCellView> {
    Seq::new(
        cells.len(),
        |k: int| StyledCellView { text: cells[k], style, right_aligned: k == cells.len() - 1 },
    )
}

/// The rank of the estimate of the treatment `t` among the estimates of its
/// input level.
pub open spec fn rank_at(estimates: Seq<Seq<Option<Estimate>>>, t: int, num_algs: nat) -> Rank {
    ranks(estimate_row(estimates, t / num_algs as int, num_algs))[t % num_algs as int]
}

/// The rows of the summary table: the cells of every treatment in the
/// style of its rank.
pub open spec fn ranked_rows(
    input_levels: Seq<Seq<Seq<char>>>,
    alg_levels: Seq<Seq<Seq<char>>>,
    estimates: Seq<Seq<Option<Estimate>>>,
) -> Seq<Seq<StyledCellView>> {
    Seq::new(
        input_levels.len() * alg_levels.len(),
        |t: int|
            styled(
                body_cells(input_levels, alg_levels, estimates)[t],
                rank_style(rank_at(estimates, t, alg_levels.len())),
            ),
    )
}

/// The summary table of the given levels and estimates: a bold title row,
/// and the row of every treatment in the style of the rank that its
/// estimate has among the estimates of its input level.
pub open spec fn summary_table_of(
    inputs: FactorTableView,
    algs: FactorTableView,
    estimates: Seq<Seq<Option<Estimate>>>,
) -> SummaryTableView {
    SummaryTableView {
        title: styled(header_cells(inputs.names, algs.names), title_style()),
        rows: ranked_rows(inputs.levels, algs.levels, estimates),
    }
}

/// The style that shows a rank.
pub fn style_of(rank: Rank) -> (style: Style)
    ensures
        style == rank_style(rank),
{
    match rank {
        Rank::Best => Style { bold: true, foreground: Some(Color::Green) },
        Rank::Worst => Style { bold: true, foreground: Some(Color::Red) },
        Rank::Intermediate => Style { bold: false, foreground: None },
        Rank::Missing => Style { bold: false, foreground: Some(Color::Rgb(50, 50, 50)) },
    }
}

/// Puts the cells of one row into one style.
pub fn style_cells(cells: &[String], style: Style) -> (row: Vec<StyledCell>)
    ensures
        row.deep_view() == styled(cells.deep_view(), style),
{
    let mut row: Vec<StyledCell> = Vec::new();
    let mut k: usize = 0;
    while k < cells.len()
        invariant
            k <= cells.len(),
            row.len() == k,
            forall|j: int| 0 <= j < k ==> row[j]@ == styled(cells.deep_view(), style)[j],
        decreases cells.len() - k,
    {
        row.push(StyledCell { text: cells[k].clone(), style, right_aligned: k + 1 == cells.len() });
        k += 1;
    }
    assert(row.deep_view() =~= styled(cells.deep_view(), style));
    row
}

/// Draws up the summary table of the given levels and estimates.
pub fn summary_table(
    inputs: &FactorTable,
    algs: &FactorTable,
    estimates: &[Vec<Option<Estimate>>],
) -> (table: SummaryTable)
    ensures
        table@ == summary_table_of(inputs@, algs@, estimates.deep_view()),
{
    let header = summary_header(inputs.names.as_slice(), algs.names.as_slice());
    let title = style_cells(header.as_slice(), Style { bold: true, foreground: None });
    let cells = summary_rows(inputs.levels.as_slice(), algs.levels.as_slice(), estimates);
    let ghost body = body_cells(inputs@.levels, algs@.levels, estimates.deep_view());
    let ghost target = ranked_rows(inputs@.levels, algs@.levels, estimates.deep_view());
    let num_inputs = inputs.levels.len();
    let num_algs = algs.levels.len();
    let mut rows: Vec<Vec<StyledCell>> = Vec::new();
    let mut i: usize = 0;
    while i < num_inputs
        invariant
            num_inputs == inputs.levels.len(),
            num_algs == algs.levels.len(),
            cells.deep_view() == body,
            body.len() == num_inputs * num_algs,
            target == ranked_rows(inputs@.levels, algs@.levels, estimates.deep_view()),
            body == body_cells(inputs@.levels, algs@.levels, estimates.deep_view()),
            i <= num_inputs,
            rows.len() == i * num_algs,
            forall|t: int| 0 <= t < rows.len() ==> rows[t].deep_view() == target[t],
        decreases num_inputs - i,
    {
        let cells_of_input = get_estimate_row(estimates, i, num_algs);
        let ranked = rank_row(cells_of_input.as_slice());
        let mut a: usize = 0;
        while a < num_algs
            invariant
                num_inputs == inputs.levels.len(),
                num_algs == algs.levels.len(),
                cells.deep_view() == body,
                body.len() == num_inputs * num_algs,
                target == ranked_rows(inputs@.levels, algs@.levels, estimates.deep_view()),
                body == body_cells(inputs@.levels, algs@.levels, estimates.deep_view()),
                ranked@ == ranks(estimate_row(estimates.deep_view(), i as int, num_algs as nat)),
                i < num_inputs,
                a <= num_algs,
                rows.len() == i * num_algs + a,
                forall|t: int| 0 <= t < rows.len() ==> rows[t].deep_view() == target[t],
            decreases num_algs - a,
        {
            let t = rows.len();
            proof {
                let n = num_algs as int;
                assert(t as int / n == i && t as int % n == a) by (nonlinear_arith)
                    requires
                        t == i * n + a,
                        0 <= a < n,
                        0 <= i,
                ;
                assert(t < num_inputs * num_algs) by (nonlinear_arith)
                    requires
                        t == i * num_algs + a,
                        i < num_inputs,
                        a < num_algs,
                ;
                assert(cells.deep_view()[t as int] == cells[t as int].deep_view());
            }
            let row = style_cells(cells[t].as_slice(), style_of(ranked[a]));
            rows.push(row);
            a += 1;
        }
        proof {
            assert(i * num_algs + num_algs == (i + 1) * num_algs) by (nonlinear_arith);
        }
        i += 1;
    }
    assert(rows.deep_view() =~= target);
    SummaryTable { title, rows }
}

} // verus!
