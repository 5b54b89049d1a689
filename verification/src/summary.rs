//! The summary of an experiment that has run: what its levels say of
//! themselves is asked once, and from it and the estimates found for the
//! treatments the csv text, the ranked table and the draft of a prompt are
//! drawn up.

use crate::alg_factors::AlgFactors;
use crate::cells::{FactorTable, FactorTableView};
use crate::csv::{summary_csv, summary_csv_text};
use crate::estimate::Estimate;
use crate::experiment::Experiment;
use crate::experiment_sealed::{ai_prompt_file, summary_csv_file, ExperimentSealed};
use crate::input_factors::InputFactors;
use crate::prompt::{analysis_prompt, prompt_text};
use crate::table::{summary_table, summary_table_of, SummaryTable, SummaryTableView};
use vstd::prelude::*;

verus! {

/// Whether `table` holds what the input levels say of themselves: the
/// names that `factor_names` gave and, for every level, the values that
/// its `factor_levels` gave.
pub open spec fn is_input_table<I: InputFactors>(levels: &[I], table: FactorTable) -> bool {
    &&& call_ensures(I::factor_names, (), table.names)
    &&& table.levels.len() == levels.len()
    &&& forall|i: int|
        0 <= i < levels.len() ==> #[trigger] call_ensures(
            I::factor_levels,
            (&levels[i],),
            table.levels[i],
        )
}

/// Whether `table` holds what the algorithm levels say of themselves: the
/// names that `factor_names` gave and, for every level, the values that
/// its `factor_levels` gave.
pub open spec fn is_alg_table<A: AlgFactors>(levels: &[A], table: FactorTable) -> bool {
    &&& call_ensures(A::factor_names, (), table.names)
    &&& table.levels.len() == levels.len()
    &&& forall|a: int|
        0 <= a < levels.len() ==> #[trigger] call_ensures(
            A::factor_levels,
            (&levels[a],),
            table.levels[a],
        )
}

/// Asks the input levels for their factor names and, one after another,
/// for their values.
pub fn input_table<I: InputFactors>(levels: &[I]) -> (table: FactorTable)
    ensures
        is_input_table(levels, table),
{
    let names = I::factor_names();
    let mut values: Vec<Vec<String>> = Vec::new();
    let mut i: usize = 0;
    while i < levels.len()
        invariant
            i <= levels.len(),
            values.len() == i,
            forall|j: int|
                0 <= j < i ==> #[trigger] call_ensures(I::factor_levels, (&levels[j],), values[j]),
        decreases levels.len() - i,
    {
        values.push(levels[i].factor_levels());
        i += 1;
    }
    FactorTable { names, levels: values }
}

/// Asks the algorithm levels for their factor names and, one after
/// another, for their values.
pub fn alg_table<A: AlgFactors>(levels: &[A]) -> (table: FactorTable)
    ensures
        is_alg_table(levels, table),
{
    let names = A::factor_names();
    let mut values: Vec<Vec<String>> = Vec::new();
    let mut a: usize = 0;
    while a < levels.len()
        invariant
            a <= levels.len(),
            values.len() == a,
            forall|j: int|
                0 <= j < a ==> #[trigger] call_ensures(A::factor_levels, (&levels[j],), values[j]),
        decreases levels.len() - a,
    {
        values.push(levels[a].factor_levels());
        a += 1;
    }
    FactorTable { names, levels: values }
}

/// The paths of the files of estimates of all treatments: for every input
/// level a row with one path for every algorithm level, each as
/// `run_estimates_path` gives it.
pub fn run_estimates_paths<E: Experiment>(
    exp: &E,
    name: &str,
    input_levels: &[E::InputFactors],
    alg_levels: &[E::AlgFactors],
) -> (paths: Vec<Vec<String>>)
    ensures
        paths.len() == input_levels.len(),
        forall|i: int| 0 <= i < paths.len() ==> (#[trigger] paths[i]).len() == alg_levels.len(),
        forall|i: int, a: int|
            0 <= i < input_levels.len() && 0 <= a < alg_levels.len() ==> #[trigger] call_ensures(
                E::run_estimates_path,
                (exp, name, &input_levels[i], &alg_levels[a]),
                paths[i][a],
            ),
{
    let mut paths: Vec<Vec<String>> = Vec::new();
    let mut i: usize = 0;
    while i < input_levels.len()
        invariant
            i <= input_levels.len(),
            paths.len() == i,
            forall|j: int| 0 <= j < i ==> (#[trigger] paths[j]).len() == alg_levels.len(),
            forall|j: int, a: int|
                0 <= j < i && 0 <= a < alg_levels.len() ==> #[trigger] call_ensures(
                    E::run_estimates_path,
                    (exp, name, &input_levels[j], &alg_levels[a]),
                    paths[j][a],
                ),
        decreases input_levels.len() - i,
    {
        let mut row: Vec<String> = Vec::new();
        let mut a: usize = 0;
        while a < alg_levels.len()
            invariant
                i < input_levels.len(),
                a <= alg_levels.len(),
                row.len() == a,
                forall|b: int|
                    0 <= b < a ==> #[trigger] call_ensures(
                        E::run_estimates_path,
                        (exp, name, &input_levels[i as int], &alg_levels[b]),
                        row[b],
                    ),
            decreases alg_levels.len() - a,
        {
            row.push(exp.run_estimates_path(name, &input_levels[i], &alg_levels[a]));
            a += 1;
        }
        paths.push(row);
        i += 1;
    }
    paths
}

/// The csv text of the summary of an experiment: of what its levels say of
/// themselves, and of the given estimates.
pub fn create_summary_csv<E: Experiment>(
    input_levels: &[E::InputFactors],
    alg_levels: &[E::AlgFactors],
    estimates: &[Vec<Option<Estimate>>],
) -> (text: String)
    ensures
        exists|inputs: FactorTable, algs: FactorTable|
            #![trigger is_input_table(input_levels, inputs), is_alg_table(alg_levels, algs)]
            is_input_table(input_levels, inputs) && is_alg_table(alg_levels, algs) && text@
                == summary_csv_text(inputs@, algs@, estimates.deep_view()),
{
    let inputs = input_table(input_levels);
    let algs = alg_table(alg_levels);
    summary_csv(&inputs, &algs, estimates)
}

/// The summary table of an experiment: of what its levels say of
/// themselves, and of the given estimates.
pub fn create_summary_table<E: Experiment>(
    input_levels: &[E::InputFactors],
    alg_levels: &[E::AlgFactors],
    estimates: &[Vec<Option<Estimate>>],
) -> (table: SummaryTable)
    ensures
        exists|inputs: FactorTable, algs: FactorTable|
            #![trigger is_input_table(input_levels, inputs), is_alg_table(alg_levels, algs)]
            is_input_table(input_levels, inputs) && is_alg_table(alg_levels, algs) && table@
                == summary_table_of(inputs@, algs@, estimates.deep_view()),
{
    let inputs = input_table(input_levels);
    let algs = alg_table(alg_levels);
    summary_table(&inputs, &algs, estimates)
}

/// Drafts the prompt that asks for an analysis of the summary of the
/// benchmark `name`: it names the csv file of the summary, the numbers of
/// the levels and of their treatments, and the factor names that
/// `factor_names` gives.
pub fn create_ai_prompt_to_analyze<E: Experiment>(
    exp: &E,
    name: &str,
    data: &[E::InputFactors],
    variants: &[E::AlgFactors],
) -> (text: String)
    ensures
        exists|input_names: Vec<&'static str>, alg_names: Vec<&'static str>|
            #![trigger
                call_ensures(<E::InputFactors as InputFactors>::factor_names, (), input_names),
                call_ensures(<E::AlgFactors as AlgFactors>::factor_names, (), alg_names),
            ]
            call_ensures(<E::InputFactors as InputFactors>::factor_names, (), input_names)
                && call_ensures(<E::AlgFactors as AlgFactors>::factor_names, (), alg_names) && text@
                == prompt_text(
                name@,
                summary_csv_file(name@),
                data.len() as nat,
                input_names.deep_view(),
                variants.len() as nat,
                alg_names.deep_view(),
            ),
{
    let summary_path = exp.summary_csv_path(name);
    let input_names = <E::InputFactors as InputFactors>::factor_names();
    let alg_names = <E::AlgFactors as AlgFactors>::factor_names();
    analysis_prompt(
        name,
        summary_path.as_str(),
        data.len(),
        input_names.as_slice(),
        variants.len(),
        alg_names.as_slice(),
    )
}

/// All that is written down when a benchmark has run.
#[derive(Debug, PartialEq, Eq)]
pub struct Summary {
    /// The path of the csv file.
    pub csv_path: String,
    /// The text of the csv file.
    pub csv: String,
    /// The table for the terminal.
    pub table: SummaryTable,
    /// The path of the file with the draft of a prompt.
    pub prompt_path: String,
    /// The draft of a prompt to analyze the csv file.
    pub prompt: String,
}

/// A summary with its texts as sequences of characters.
pub struct SummaryView {
    pub csv_path: Seq<char>,
    pub csv: Seq<char>,
    pub table: SummaryTableView,
    pub prompt_path: Seq<char>,
    pub prompt: Seq<char>,
}

impl View for Summary {
    type V = SummaryView;

    open spec fn view(&self) -> SummaryView {
        SummaryView {
            csv_path: self.csv_path@,
            csv: self.csv@,
            table: self.table@,
            prompt_path: self.prompt_path@,
            prompt: self.prompt@,
        }
    }
}

/// The summary of the benchmark `name` for the levels that the two tables
/// hold and the given estimates.
pub open spec fn summary_of(
    name: Seq<char>,
    inputs: FactorTableView,
    algs: FactorTableView,
    estimates: Seq<Seq<Option<Estimate>>>,
) -> SummaryView {
    SummaryView {
        csv_path: summary_csv_file(name),
        csv: summary_csv_text(inputs, algs, estimates),
        table: summary_table_of(inputs, algs, estimates),
        prompt_path: ai_prompt_file(name),
        prompt: prompt_text(
            name,
            summary_csv_file(name),
            inputs.levels.len(),
            inputs.names,
            algs.levels.len(),
            algs.names,
        ),
    }
}

/// Draws up the summary of a benchmark that has run: the csv text, the
/// ranked table and the draft of a prompt, with the paths of the two files,
/// from what the levels say of themselves and from the estimates found for
/// the treatments.
pub fn summarize<E: Experiment>(
    exp: &E,
    name: &str,
    input_levels: &[E::InputFactors],
    alg_levels: &[E::AlgFactors],
    estimates: &[Vec<Option<Estimate>>],
) -> (summary: Summary)
    ensures
        exists|inputs: FactorTable, algs: FactorTable|
            #![trigger is_input_table(input_levels, inputs), is_alg_table(alg_levels, algs)]
            is_input_table(input_levels, inputs) && is_alg_table(alg_levels, algs) && summary@
                == summary_of(name@, inputs@, algs@, estimates.deep_view()),
{
    let inputs = input_table(input_levels);
    let algs = alg_table(alg_levels);
    let csv_path = exp.summary_csv_path(name);
    let csv = summary_csv(&inputs, &algs, estimates);
    let table = summary_table(&inputs, &algs, estimates);
    let prompt_path = exp.ai_prompt_path(name);
    let prompt = analysis_prompt(
        name,
        csv_path.as_str(),
        input_levels.len(),
        inputs.names.as_slice(),
        alg_levels.len(),
        algs.names.as_slice(),
    );
    let summary = Summary { csv_path, csv, table, prompt_path, prompt };
    assert(summary@ == summary_of(name@, inputs@, algs@, estimates.deep_view()));
    summary
}

} // verus!
