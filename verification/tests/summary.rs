use orx_criterion::cells::{
    estimate_cell, get_estimate, get_estimate_row, summary_header, summary_row, summary_rows,
    FactorTable,
};
use orx_criterion::csv::{csv_text, summary_csv};
use orx_criterion::estimate::Estimate;
use orx_criterion::prompt::analysis_prompt;
use orx_criterion::rank::Rank;
use orx_criterion::summary::{
    alg_table, create_summary_csv, create_summary_table, input_table, run_estimates_paths,
};
use orx_criterion::table::{style_cells, style_of, summary_table, Color, Style, StyledCell};
use orx_criterion::{
    create_ai_prompt_to_analyze, summarize, AlgFactors, Experiment, InputFactors,
};

pub struct Width(usize);

impl InputFactors for Width {
    fn factor_names() -> Vec<&'static str> {
        vec!["width"]
    }

    fn factor_levels(&self) -> Vec<String> {
        vec![self.0.to_string()]
    }
}

pub struct Sorting {
    len: usize,
    sort: bool,
}

impl AlgFactors for Sorting {
    fn factor_names() -> Vec<&'static str> {
        vec!["len", "sort"]
    }

    fn factor_levels(&self) -> Vec<String> {
        vec![self.len.to_string(), self.sort.to_string()]
    }

    fn factor_names_short() -> Vec<&'static str> {
        vec!["l", "s"]
    }

    fn factor_levels_short(&self) -> Vec<String> {
        let sort = if self.sort { "T" } else { "F" };
        vec![self.len.to_string(), sort.to_string()]
    }
}

pub struct SortExperiment;

impl Experiment for SortExperiment {
    type InputFactors = Width;

    type AlgFactors = Sorting;

    type Input = Vec<usize>;

    type Output = Vec<usize>;

    fn input(&mut self, width: &Self::InputFactors) -> Self::Input {
        (0..width.0).rev().collect()
    }

    fn execute(&mut self, variant: &Self::AlgFactors, input: &Self::Input) -> Self::Output {
        let mut output = input.clone();
        if variant.sort {
            output.sort();
        }
        output
    }
}

fn strings(values: &[&str]) -> Vec<String> {
    values.iter().map(|x| x.to_string()).collect()
}

fn nanos(x: f64) -> Option<Estimate> {
    Some(Estimate {
        femtos: (x * 1e6).round() as u64,
    })
}

fn levels() -> ([Width; 2], [Sorting; 2]) {
    (
        [Width(2), Width(5)],
        [
            Sorting {
                len: 1001,
                sort: false,
            },
            Sorting {
                len: 1001,
                sort: true,
            },
        ],
    )
}

fn tables() -> (FactorTable, FactorTable) {
    (
        FactorTable {
            names: vec!["width"],
            levels: vec![strings(&["2"]), strings(&["5"])],
        },
        FactorTable {
            names: vec!["len", "sort"],
            levels: vec![strings(&["1001", "false"]), strings(&["1001", "true"])],
        },
    )
}

fn estimates() -> Vec<Vec<Option<Estimate>>> {
    vec![vec![nanos(120.0), nanos(95.0)], vec![None, nanos(95.5)]]
}

const CSV: &str = "t,i,a,width,len,sort,Time (ns)\n\
1,1,1,2,1001,false,120\n\
2,1,2,2,1001,true,95\n\
3,2,1,5,1001,false,NA\n\
4,2,2,5,1001,true,96\n";

fn cell(text: &str, bold: bool, foreground: Option<Color>, right_aligned: bool) -> StyledCell {
    StyledCell {
        text: text.to_string(),
        style: Style { bold, foreground },
        right_aligned,
    }
}

fn row_in(texts: &[&str], bold: bool, foreground: Option<Color>) -> Vec<StyledCell> {
    let last = texts.len() - 1;
    texts
        .iter()
        .enumerate()
        .map(|(k, text)| cell(text, bold, foreground, k == last))
        .collect()
}

#[test]
fn header_names_the_columns() {
    assert_eq!(
        summary_header(&["width"], &["len", "sort"]),
        strings(&["t", "i", "a", "width", "len", "sort", "Time (ns)"])
    );
    assert_eq!(
        summary_header(&[], &[]),
        strings(&["t", "i", "a", "Time (ns)"])
    );
}

#[test]
fn row_counts_from_one_and_holds_the_values_supplied() {
    let input_values = strings(&["2"]);
    let alg_values = strings(&["1001", "true"]);
    let row = summary_row(1, 0, 1, &input_values, &alg_values, nanos(95.0));
    assert_eq!(row, strings(&["2", "1", "2", "2", "1001", "true", "95"]));
    assert_eq!(row[3..4], input_values[..]);
    assert_eq!(row[4..6], alg_values[..]);
}

#[test]
fn row_without_an_estimate_shows_na() {
    let row = summary_row(0, 0, 0, &[], &[], None);
    assert_eq!(row, strings(&["1", "1", "1", "NA"]));
    assert_eq!(estimate_cell(None), "NA");
    assert_eq!(estimate_cell(nanos(17.5)), "18");
    assert_eq!(estimate_cell(nanos(16.5)), "16");
}

#[test]
fn row_numbers_do_not_overflow() {
    let row = summary_row(usize::MAX, usize::MAX, usize::MAX, &[], &[], None);
    let number = (usize::MAX as u128 + 1).to_string();
    assert_eq!(row, vec![number.clone(), number.clone(), number, "NA".to_string()]);
}

#[test]
fn rows_stand_in_the_order_of_execution() {
    let (inputs, algs) = tables();
    let rows = summary_rows(&inputs.levels, &algs.levels, &estimates());
    assert_eq!(
        rows,
        vec![
            strings(&["1", "1", "1", "2", "1001", "false", "120"]),
            strings(&["2", "1", "2", "2", "1001", "true", "95"]),
            strings(&["3", "2", "1", "5", "1001", "false", "NA"]),
            strings(&["4", "2", "2", "5", "1001", "true", "96"]),
        ]
    );
}

#[test]
fn every_row_holds_the_values_of_its_levels() {
    let (inputs, algs) = tables();
    let rows = summary_rows(&inputs.levels, &algs.levels, &estimates());
    assert_eq!(rows.len(), inputs.levels.len() * algs.levels.len());
    for (t, row) in rows.iter().enumerate() {
        let i = t / algs.levels.len();
        let a = t % algs.levels.len();
        assert_eq!(row[0], (t + 1).to_string());
        assert_eq!(row[1], (i + 1).to_string());
        assert_eq!(row[2], (a + 1).to_string());
        assert_eq!(row[3..4], inputs.levels[i][..]);
        assert_eq!(row[4..6], algs.levels[a][..]);
    }
}

#[test]
fn no_levels_no_rows() {
    let (inputs, algs) = tables();
    assert!(summary_rows(&[], &algs.levels, &estimates()).is_empty());
    assert!(summary_rows(&inputs.levels, &[], &estimates()).is_empty());
    assert!(summary_rows(&[], &[], &[]).is_empty());
    let empty = FactorTable {
        names: vec!["width"],
        levels: vec![],
    };
    assert_eq!(
        summary_csv(&empty, &algs, &[]),
        "t,i,a,width,len,sort,Time (ns)\n"
    );
    let table = summary_table(&empty, &algs, &[]);
    assert_eq!(table.title.len(), 7);
    assert!(table.rows.is_empty());
}

#[test]
fn estimates_that_are_not_there_are_missing() {
    let matrix = estimates();
    assert_eq!(get_estimate(&matrix, 0, 1), nanos(95.0));
    assert_eq!(get_estimate(&matrix, 1, 0), None);
    assert_eq!(get_estimate(&matrix, 1, 2), None);
    assert_eq!(get_estimate(&matrix, 2, 0), None);
    assert_eq!(get_estimate_row(&matrix, 0, 3), vec![nanos(120.0), nanos(95.0), None]);
    assert_eq!(get_estimate_row(&matrix, 5, 2), vec![None, None]);
    let (inputs, algs) = tables();
    assert_eq!(
        summary_csv(&inputs, &algs, &[vec![nanos(1.0)]]),
        "t,i,a,width,len,sort,Time (ns)\n\
1,1,1,2,1001,false,1\n\
2,1,2,2,1001,true,NA\n\
3,2,1,5,1001,false,NA\n\
4,2,2,5,1001,true,NA\n"
    );
}

#[test]
fn csv_of_rows() {
    assert_eq!(csv_text(&[]), "");
    assert_eq!(csv_text(&[strings(&["a", "b"])]), "a,b\n");
    assert_eq!(csv_text(&[strings(&["a", "b"]), vec![], strings(&["c"])]), "a,b\n\nc\n");
}

#[test]
fn csv_of_the_summary() {
    let (inputs, algs) = tables();
    assert_eq!(summary_csv(&inputs, &algs, &estimates()), CSV);
}

#[test]
fn styles_of_the_ranks() {
    assert_eq!(
        style_of(Rank::Best),
        Style {
            bold: true,
            foreground: Some(Color::Green)
        }
    );
    assert_eq!(
        style_of(Rank::Worst),
        Style {
            bold: true,
            foreground: Some(Color::Red)
        }
    );
    assert_eq!(
        style_of(Rank::Intermediate),
        Style {
            bold: false,
            foreground: None
        }
    );
    assert_eq!(
        style_of(Rank::Missing),
        Style {
            bold: false,
            foreground: Some(Color::Rgb(50, 50, 50))
        }
    );
}

#[test]
fn styled_cells_set_the_last_to_the_right() {
    let style = style_of(Rank::Best);
    assert!(style_cells(&[], style).is_empty());
    assert_eq!(
        style_cells(&strings(&["1", "95"]), style),
        vec![
            cell("1", true, Some(Color::Green), false),
            cell("95", true, Some(Color::Green), true)
        ]
    );
}

#[test]
fn table_of_the_summary() {
    let (inputs, algs) = tables();
    let table = summary_table(&inputs, &algs, &estimates());
    assert_eq!(
        table.title,
        row_in(&["t", "i", "a", "width", "len", "sort", "Time (ns)"], true, None)
    );
    assert_eq!(
        table.rows,
        vec![
            row_in(&["1", "1", "1", "2", "1001", "false", "120"], true, Some(Color::Red)),
            row_in(&["2", "1", "2", "2", "1001", "true", "95"], true, Some(Color::Green)),
            row_in(
                &["3", "2", "1", "5", "1001", "false", "NA"],
                false,
                Some(Color::Rgb(50, 50, 50))
            ),
            row_in(&["4", "2", "2", "5", "1001", "true", "96"], true, Some(Color::Green)),
        ]
    );
}

#[test]
fn table_ranks_within_each_input_level() {
    let (inputs, algs) = tables();
    let matrix = vec![vec![nanos(10.0), nanos(20.0)], vec![nanos(40.0), nanos(30.0)]];
    let table = summary_table(&inputs, &algs, &matrix);
    let styles: Vec<Style> = table.rows.iter().map(|row| row[0].style).collect();
    assert_eq!(
        styles,
        [
            style_of(Rank::Best),
            style_of(Rank::Worst),
            style_of(Rank::Worst),
            style_of(Rank::Best)
        ]
    );
}

const PROMPT: &str = "
The file at '\"target/criterion/sorting/summary_sorting.csv\"' is the output of a full-factorial experiment for the 'sorting' benchmark.

The experiment is applied on 2 data sets.
Each data set is defined by combination of values of factors 'width'.
Each data set, or combination, gets a unique index specified in column 'i'.

Problem of each data set is solved by 2 algorithm variants.
Each variant is defined by combination of values of parameters 'len, sort'.
Each algorithm variant gets a unique index specified in column 'a'.

In total, there exist 4 treatments as unique combinations of input data settings and algorithm variant parameters.
Each treatment gets a unique index specified in column 't'.

The response variable is the time.
Although we have a single value per treatment, these values are obtained by the 'criterion' crate which runs sufficiently large number of repetitions to obtain these point estimates.

The objective is to solve the problem as fast as possible.
In other words, we want to minimize elapsed time.
We are searching the best values of the parameters, or best variant, that would perform the best across different data sets.

Please analyze the output of the experiment and provide insights.
    ";

#[test]
fn prompt_describes_the_experiment() {
    let text = analysis_prompt(
        "sorting",
        "target/criterion/sorting/summary_sorting.csv",
        2,
        &["width"],
        2,
        &["len", "sort"],
    );
    assert_eq!(text, PROMPT);
}

#[test]
fn prompt_counts_the_treatments() {
    let text = analysis_prompt("x", "p", 3, &[], 7, &[]);
    assert!(text.contains("applied on 3 data sets"));
    assert!(text.contains("solved by 7 algorithm variants"));
    assert!(text.contains("there exist 21 treatments"));
    assert!(text.contains("factors ''"));
    let text = analysis_prompt("x", "p", usize::MAX, &[], usize::MAX, &[]);
    let product = (usize::MAX as u128 * usize::MAX as u128).to_string();
    assert!(text.contains(&format!("there exist {product} treatments")));
}

#[test]
fn tables_hold_what_the_levels_report() {
    let (input_levels, alg_levels) = levels();
    let (inputs, algs) = tables();
    assert_eq!(input_table(&input_levels), inputs);
    assert_eq!(alg_table(&alg_levels), algs);
    let table = input_table::<Width>(&[]);
    assert_eq!(table.names, ["width"]);
    assert!(table.levels.is_empty());
}

#[test]
fn paths_of_all_estimates() {
    let (input_levels, alg_levels) = levels();
    let paths = run_estimates_paths(&SortExperiment, "sorting", &input_levels, &alg_levels);
    assert_eq!(
        paths,
        vec![
            strings(&[
                "target/criterion/sorting/width_2_l_1001_s_F/new/estimates.json",
                "target/criterion/sorting/width_2_l_1001_s_T/new/estimates.json"
            ]),
            strings(&[
                "target/criterion/sorting/width_5_l_1001_s_F/new/estimates.json",
                "target/criterion/sorting/width_5_l_1001_s_T/new/estimates.json"
            ]),
        ]
    );
    let none = run_estimates_paths(&SortExperiment, "sorting", &input_levels, &[]);
    assert_eq!(none, vec![Vec::<String>::new(), Vec::new()]);
}

#[test]
fn summary_of_an_experiment() {
    let (input_levels, alg_levels) = levels();
    let (inputs, algs) = tables();
    let matrix = estimates();
    assert_eq!(
        create_summary_csv::<SortExperiment>(&input_levels, &alg_levels, &matrix),
        CSV
    );
    assert_eq!(
        create_summary_table::<SortExperiment>(&input_levels, &alg_levels, &matrix),
        summary_table(&inputs, &algs, &matrix)
    );
    assert_eq!(
        create_ai_prompt_to_analyze(&SortExperiment, "sorting", &input_levels, &alg_levels),
        PROMPT
    );
    let summary = summarize(&SortExperiment, "sorting", &input_levels, &alg_levels, &matrix);
    assert_eq!(summary.csv_path, "target/criterion/sorting/summary_sorting.csv");
    assert_eq!(summary.csv, CSV);
    assert_eq!(summary.table, summary_table(&inputs, &algs, &matrix));
    assert_eq!(summary.prompt_path, "target/criterion/sorting/prompt_sorting.md");
    assert_eq!(summary.prompt, PROMPT);
}

#[test]
fn summary_without_treatments() {
    let (input_levels, _) = levels();
    let summary = summarize(&SortExperiment, "sorting", &input_levels, &[], &[]);
    assert_eq!(summary.csv, "t,i,a,width,len,sort,Time (ns)\n");
    assert!(summary.table.rows.is_empty());
    assert!(summary.prompt.contains("there exist 0 treatments"));
}
