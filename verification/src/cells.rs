//! The cells of the summary of a benchmark: a title row, and one row for
//! each treatment.
//!
//! Rows stand in the order of execution: input levels in the outer loop,
//! algorithm levels in the inner one. The numbers `t`, `i` and `a` count
//! from zero; a row shows them counted from one.

use crate::estimate::{rounded_nanos, Estimate};
use crate::text::{decimal, decimal_string};
use vstd::prelude::*;
use vstd::string::StringExecFns;

verus! {

/// What a set of factors says of itself: the names of the factors and, for
/// each level, the values of the level as text.
#[derive(Debug, PartialEq, Eq)]
pub struct FactorTable {
    pub names: Vec<&'static str>,
    pub levels: Vec<Vec<String>>,
}

/// A factor table with its texts as sequences of characters.
pub struct FactorTableView {
    pub names: Seq<Seq<char>>,
    pub levels: Seq<Seq<Seq<char>>>,
}

impl View for FactorTable {
    type V = FactorTableView;

    open spec fn view(&self) -> FactorTableView {
        FactorTableView { names: self.names.deep_view(), levels: self.levels.deep_view() }
    }
}

/// The cell of `estimates` for the input level `i` and the algorithm level
/// `a`; empty where the estimates do not reach so far.
pub open spec fn estimate_at(
    estimates: Seq<Seq<Option<Estimate>>>,
    i: int,
    a: int,
) -> Option<Estimate> {
    if 0 <= i < estimates.len() && 0 <= a < estimates[i].len() {
        estimates[i][a]
    } else {
        None
    }
}

/// The estimates of the input level `i`, one cell for each of `num_algs`
/// algorithm levels.
pub open spec fn estimate_row(
    estimates: Seq<Seq<Option<Estimate>>>,
    i: int,
    num_algs: nat,
) -> Seq<Option<Estimate>> {
    Seq::new(num_algs, |a: int| estimate_at(estimates, i, a))
}

/// An estimate as the summary shows it: whole nanoseconds, or `NA` where
/// there is none.
pub open spec fn estimate_text(cell: Option<Estimate>) -> Seq<char> {
    match cell {
        Some(estimate) => decimal(rounded_nanos(estimate.femtos as nat)),
        None => "NA"@,
    }
}

/// The cells of the title row: `t`, `i`, `a`, the names of the input
/// factors, the names of the algorithm factors, and `Time (ns)`.
pub open spec fn header_cells(
    input_names: Seq<Seq<char>>,
    alg_names: Seq<Seq<char>>,
) -> Seq<Seq<char>> {
    seq!["t"@, "i"@, "a"@] + input_names + alg_names + seq!["Time (ns)"@]
}

/// The cells of the row of the treatment `t`, which pairs the input level
/// `i` with the algorithm level `a`: the three numbers counted from one,
/// the values of the input level, the values of the algorithm level, and
/// the estimate.
pub open spec fn row_cells(
    t: nat,
    i: nat,
    a: nat,
    input_values: Seq<Seq<char>>,
    alg_values: Seq<Seq<char>>,
    estimate: Option<Estimate>,
) -> Seq<Seq<char>> {
    seq![decimal(t + 1), decimal(i + 1), decimal(a + 1)] + input_values + alg_values
        + seq![estimate_text(estimate)]
}

/// The rows of all treatments, in the order of execution: the treatment
/// `t` pairs the input level `t / A` with the algorithm level `t % A`,
/// where `A` is the number of algorithm levels.
pub open spec fn body_cells(
    input_levels: Seq<Seq<Seq<char>>>,
    alg_levels: Seq<Seq<Seq<char>>>,
    estimates: Seq<Seq<Option<Estimate>>>,
) -> Seq<Seq<Seq<char>>> {
    let num_algs = alg_levels.len() as int;
    Seq::new(
        input_levels.len() * alg_levels.len(),
        |t: int|
            row_cells(
                t as nat,
                (t / num_algs) as nat,
                (t % num_algs) as nat,
                input_levels[t / num_algs],
                alg_levels[t % num_algs],
                estimate_at(estimates, t / num_algs, t % num_algs),
            ),
    )
}

/// Every factor value that a row shows is the value that was supplied for
/// the treatment's input level or algorithm level, at its place among the
/// values of that level.
pub proof fn lemma_row_holds_values(
    t: nat,
    i: nat,
    a: nat,
    input_values: Seq<Seq<char>>,
    alg_values: Seq<Seq<char>>,
    estimate: Option<Estimate>,
)
    ensures
        row_cells(t, i, a, input_values, alg_values, estimate).len() == 3 + input_values.len()
            + alg_values.len() + 1,
        forall|k: int|
            0 <= k < input_values.len() ==> row_cells(
                t,
                i,
                a,
                input_values,
                alg_values,
                estimate,
            )[3 + k] == #[trigger] input_values[k],
        forall|k: int|
            0 <= k < alg_values.len() ==> row_cells(t, i, a, input_values, alg_values, estimate)[3
                + input_values.len() + k] == #[trigger] alg_values[k],
{
}

/// Every row of the summary shows the values that were supplied for the
/// input level and the algorithm level of its treatment.
pub proof fn lemma_summary_holds_values(
    input_levels: Seq<Seq<Seq<char>>>,
    alg_levels: Seq<Seq<Seq<char>>>,
    estimates: Seq<Seq<Option<Estimate>>>,
    i: int,
    a: int,
)
    requires
        0 <= i < input_levels.len(),
        0 <= a < alg_levels.len(),
    ensures
        0 <= i * alg_levels.len() + a < body_cells(input_levels, alg_levels, estimates).len(),
        body_cells(input_levels, alg_levels, estimates)[i * alg_levels.len() + a].subrange(
            3,
            3 + input_levels[i].len() as int,
        ) == input_levels[i],
        body_cells(input_levels, alg_levels, estimates)[i * alg_levels.len() + a].subrange(
            3 + input_levels[i].len() as int,
            3 + input_levels[i].len() as int + alg_levels[a].len() as int,
        ) == alg_levels[a],
{
    let n = alg_levels.len() as int;
    let t = i * n + a;
    assert(0 <= t < input_levels.len() * n) by (nonlinear_arith)
        requires
            t == i * n + a,
            0 <= i < input_levels.len(),
            0 <= a < n,
    ;
    assert(t / n == i && t % n == a) by (nonlinear_arith)
        requires
            t == i * n + a,
            0 <= a < n,
            0 <= i,
    ;
    let row = body_cells(input_levels, alg_levels, estimates)[t];
    let from = 3 + input_levels[i].len() as int;
    assert(row.subrange(3, from) =~= input_levels[i]);
    assert(row.subrange(from, from + alg_levels[a].len()) =~= alg_levels[a]);
}

/// Reads the cell of the estimates for the input level `i` and the
/// algorithm level `a`.
pub fn get_estimate(
    estimates: &[Vec<Option<Estimate>>],
    i: usize,
    a: usize,
) -> (cell: Option<Estimate>)
    ensures
        cell == estimate_at(estimates.deep_view(), i as int, a as int),
{
    if i < estimates.len() {
        let row = &estimates[i];
        assert(estimates.deep_view()[i as int] =~= row@);
        if a < row.len() {
            row[a]
        } else {
            None
        }
    } else {
        None
    }
}

/// Reads the estimates of the input level `i`, one cell for each of
/// `num_algs` algorithm levels.
pub fn get_estimate_row(
    estimates: &[Vec<Option<Estimate>>],
    i: usize,
    num_algs: usize,
) -> (row: Vec<Option<Estimate>>)
    ensures
        row@ == estimate_row(estimates.deep_view(), i as int, num_algs as nat),
{
    let mut row: Vec<Option<Estimate>> = Vec::new();
    let mut a: usize = 0;
    while a < num_algs
        invariant
            a <= num_algs,
            row.len() == a,
            forall|j: int| 0 <= j < a ==> row[j] == estimate_at(estimates.deep_view(), i as int, j),
        decreases num_algs - a,
    {
        row.push(get_estimate(estimates, i, a));
        a += 1;
    }
    assert(row@ =~= estimate_row(estimates.deep_view(), i as int, num_algs as nat));
    row
}

/// Writes an estimate as the summary shows it.
pub fn estimate_cell(cell: Option<Estimate>) -> (text: String)
    ensures
        text@ == estimate_text(cell),
{
    match cell {
        Some(estimate) => estimate.nanos_text(),
        None => String::from_str("NA"),
    }
}

fn push_names(cells: &mut Vec<String>, names: &[&'static str])
    ensures
        final(cells).deep_view() == old(cells).deep_view() + names.deep_view(),
{
    let ghost start = cells.deep_view();
    let mut k: usize = 0;
    while k < names.len()
        invariant
            k <= names.len(),
            cells.deep_view() == start + names.deep_view().take(k as int),
        decreases names.len() - k,
    {
        let ghost before = cells.deep_view();
        cells.push(String::from_str(names[k]));
        assert(cells.deep_view() =~= before.push(names[k as int]@));
        assert(cells.deep_view() =~= start + names.deep_view().take(k + 1));
        k += 1;
    }
    assert(names.deep_view().take(k as int) =~= names.deep_view());
}

fn push_values(cells: &mut Vec<String>, values: &[String])
    ensures
        final(cells).deep_view() == old(cells).deep_view() + values.deep_view(),
{
    let ghost start = cells.deep_view();
    let mut k: usize = 0;
    while k < values.len()
        invariant
            k <= values.len(),
            cells.deep_view() == start + values.deep_view().take(k as int),
        decreases values.len() - k,
    {
        let ghost before = cells.deep_view();
        cells.push(values[k].clone());
        assert(cells.deep_view() =~= before.push(values[k as int]@));
        assert(cells.deep_view() =~= start + values.deep_view().take(k + 1));
        k += 1;
    }
    assert(values.deep_view().take(k as int) =~= values.deep_view());
}

fn push_text(cells: &mut Vec<String>, text: String)
    ensures
        final(cells).deep_view() == old(cells).deep_view().push(text@),
{
    let ghost before = cells.deep_view();
    cells.push(text);
    assert(cells.deep_view() =~= before.push(text@));
}

/// The cells of the title row.
pub fn summary_header(
    input_names: &[&'static str],
    alg_names: &[&'static str],
) -> (cells: Vec<String>)
    ensures
        cells.deep_view() == header_cells(input_names.deep_view(), alg_names.deep_view()),
{
    let mut cells: Vec<String> = Vec::new();
    assert(cells.deep_view() =~= Seq::<Seq<char>>::empty());
    push_text(&mut cells, String::from_str("t"));
    push_text(&mut cells, String::from_str("i"));
    push_text(&mut cells, String::from_str("a"));
    push_names(&mut cells, input_names);
    push_names(&mut cells, alg_names);
    push_text(&mut cells, String::from_str("Time (ns)"));
    assert(cells.deep_view() =~= header_cells(input_names.deep_view(), alg_names.deep_view()));
    cells
}

/// The cells of the row of one treatment.
pub fn summary_row(
    t: usize,
    i: usize,
    a: usize,
    input_values: &[String],
    alg_values: &[String],
    estimate: Option<Estimate>,
) -> (cells: Vec<String>)
    ensures
        cells.deep_view() == row_cells(
            t as nat,
            i as nat,
            a as nat,
            input_values.deep_view(),
            alg_values.deep_view(),
            estimate,
        ),
{
    let mut cells: Vec<String> = Vec::new();
    assert(cells.deep_view() =~= Seq::<Seq<char>>::empty());
    push_text(&mut cells, decimal_string(t as u128 + 1));
    push_text(&mut cells, decimal_string(i as u128 + 1));
    push_text(&mut cells, decimal_string(a as u128 + 1));
    push_values(&mut cells, input_values);
    push_values(&mut cells, alg_values);
    push_text(&mut cells, estimate_cell(estimate));
    assert(cells.deep_view() =~= row_cells(
        t as nat,
        i as nat,
        a as nat,
        input_values.deep_view(),
        alg_values.deep_view(),
        estimate,
    ));
    cells
}

/// The rows of all treatments, in the order of execution.
pub fn summary_rows(
    input_levels: &[Vec<String>],
    alg_levels: &[Vec<String>],
    estimates: &[Vec<Option<Estimate>>],
) -> (rows: Vec<Vec<String>>)
    ensures
        rows.deep_view() == body_cells(
            input_levels.deep_view(),
            alg_levels.deep_view(),
            estimates.deep_view(),
        ),
{
    let ghost body = body_cells(
        input_levels.deep_view(),
        alg_levels.deep_view(),
        estimates.deep_view(),
    );
    let num_inputs = input_levels.len();
    let num_algs = alg_levels.len();
    let mut rows: Vec<Vec<String>> = Vec::new();
    let mut i: usize = 0;
    while i < num_inputs
        invariant
            num_inputs == input_levels.len(),
            num_algs == alg_levels.len(),
            body == body_cells(
                input_levels.deep_view(),
                alg_levels.deep_view(),
                estimates.deep_view(),
            ),
            i <= num_inputs,
            rows.len() == i * num_algs,
            forall|t: int| 0 <= t < rows.len() ==> rows[t].deep_view() == body[t],
        decreases num_inputs - i,
    {
        let mut a: usize = 0;
        while a < num_algs
            invariant
                num_inputs == input_levels.len(),
                num_algs == alg_levels.len(),
                body == body_cells(
                    input_levels.deep_view(),
                    alg_levels.deep_view(),
                    estimates.deep_view(),
                ),
                i < num_inputs,
                a <= num_algs,
                rows.len() == i * num_algs + a,
                forall|t: int| 0 <= t < rows.len() ==> rows[t].deep_view() == body[t],
            decreases num_algs - a,
        {
            let t = rows.len();
            proof {
                let n = num_algs as int;
                assert(t as int / n == i && t as int % n == a) by (nonlinear_arith)
                    requires
                        t == i * n + a,
                        0 <= a < n,
                        0 <= i,
                ;
                assert(t < num_inputs * num_algs) by (nonlinear_arith)
                    requires
                        t == i * num_algs + a,
                        i < num_inputs,
                        a < num_algs,
                ;
                assert(input_levels.deep_view()[i as int] == input_levels[i as int].deep_view());
                assert(alg_levels.deep_view()[a as int] == alg_levels[a as int].deep_view());
            }
            let row = summary_row(
                t,
                i,
                a,
                input_levels[i].as_slice(),
                alg_levels[a].as_slice(),
                get_estimate(estimates, i, a),
            );
            rows.push(row);
            a += 1;
        }
        proof {
            assert(i * num_algs + num_algs == (i + 1) * num_algs) by (nonlinear_arith);
        }
        i += 1;
    }
    assert(rows.deep_view() =~= body);
    rows
}

} // verus!
