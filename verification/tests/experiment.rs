use orx_criterion::grid::{num_treatments, schedule, Run, Step};
use orx_criterion::progress::{bench_heading, input_heading, run_heading};
use orx_criterion::{AlgFactors, Experiment, ExperimentSealed, InputFactors};

pub struct MyTreat1(usize);

impl InputFactors for MyTreat1 {
    fn factor_names() -> Vec<&'static str> {
        vec!["width"]
    }

    fn factor_levels(&self) -> Vec<String> {
        vec![self.0.to_string()]
    }
}

pub struct MyVariant2 {
    len: usize,
    sort: bool,
}

impl AlgFactors for MyVariant2 {
    fn factor_names() -> Vec<&'static str> {
        vec!["len", "sort"]
    }

    fn factor_levels(&self) -> Vec<String> {
        vec![self.len.to_string(), self.sort.to_string()]
    }
}

pub struct MyExperiment;

impl Experiment for MyExperiment {
    type InputFactors = MyTreat1;

    type AlgFactors = MyVariant2;

    type Input = Vec<usize>;

    type Output = Vec<usize>;

    fn input(&mut self, treatment: &Self::InputFactors) -> Self::Input {
        (0..treatment.0).collect()
    }

    fn execute(&mut self, variant: &Self::AlgFactors, input: &Self::Input) -> Self::Output {
        let mut output = input.clone();
        if variant.sort {
            for _ in 0..variant.len {
                for i in 1..output.len() {
                    output.swap(i, i - 1);
                }
            }
        }
        output
    }
}

fn two_by_two() -> ([MyTreat1; 2], [MyVariant2; 2]) {
    let treatments = [MyTreat1(2), MyTreat1(5)];
    let variants = [
        MyVariant2 {
            len: 1001,
            sort: false,
        },
        MyVariant2 {
            len: 1001,
            sort: true,
        },
    ];
    (treatments, variants)
}

#[test]
fn basic_experiment() {
    let (treatments, variants) = two_by_two();
    let mut exp = MyExperiment;

    let mut outputs = vec![];
    let mut names = vec![];
    for treatment in &treatments {
        let input = exp.input(treatment);
        for variant in &variants {
            names.push(exp.run_key_long(treatment, variant));
            outputs.push(exp.execute(variant, &input));
        }
    }

    assert_eq!(
        outputs,
        [
            vec![0, 1],
            vec![1, 0],
            vec![0, 1, 2, 3, 4],
            vec![1, 2, 3, 4, 0],
        ]
    );

    assert_eq!(
        names,
        [
            "width:2/len:1001_sort:false",
            "width:2/len:1001_sort:true",
            "width:5/len:1001_sort:false",
            "width:5/len:1001_sort:true"
        ]
    );
}

#[test]
fn experiment_bench() {
    let (treatments, variants) = two_by_two();
    let mut exp = MyExperiment;

    let mut outputs = vec![];
    let mut names = vec![];
    for treatment in &treatments {
        let input = exp.input(treatment);
        for variant in &variants {
            names.push(exp.run_key_long(treatment, variant));
            outputs.push(exp.execute(variant, &input));
        }
    }

    assert_eq!(
        outputs,
        [
            vec![0, 1],
            vec![1, 0],
            vec![0, 1, 2, 3, 4],
            vec![1, 2, 3, 4, 0],
        ]
    );

    assert_eq!(
        names,
        [
            "width:2/len:1001_sort:false",
            "width:2/len:1001_sort:true",
            "width:5/len:1001_sort:false",
            "width:5/len:1001_sort:true"
        ]
    );
}

fn measured(plan: &[Step]) -> Vec<Run> {
    plan.iter()
        .filter_map(|step| match step {
            Step::Measure(run) => Some(*run),
            Step::BuildInput { .. } => None,
        })
        .collect()
}

#[test]
fn schedule_of_two_by_two() {
    let run = |t, i, a| Step::Measure(Run { t, i, a });
    assert_eq!(
        schedule(2, 2),
        [
            Step::BuildInput { i: 0 },
            run(0, 0, 0),
            run(1, 0, 1),
            Step::BuildInput { i: 1 },
            run(2, 1, 0),
            run(3, 1, 1),
        ]
    );
}

#[test]
fn schedule_measures_every_pair_once_in_order() {
    let (treatments, variants) = two_by_two();
    let exp = MyExperiment;

    let plan = schedule(treatments.len(), variants.len());
    let runs = measured(&plan);
    assert_eq!(runs.len(), 4);

    let mut keys = vec![];
    for (place, run) in runs.iter().enumerate() {
        assert_eq!(run.t, place);
        assert_eq!(run.t, run.i * variants.len() + run.a);
        keys.push(exp.run_key_long(&treatments[run.i], &variants[run.a]));
    }

    assert_eq!(
        keys,
        [
            "width:2/len:1001_sort:false",
            "width:2/len:1001_sort:true",
            "width:5/len:1001_sort:false",
            "width:5/len:1001_sort:true"
        ]
    );
}

#[test]
fn schedule_of_three_by_four() {
    let plan = schedule(3, 4);
    assert_eq!(plan.len(), 3 * (4 + 1));
    let runs = measured(&plan);
    assert_eq!(runs.len(), 12);
    let pairs: Vec<(usize, usize, usize)> = runs.iter().map(|r| (r.t, r.i, r.a)).collect();
    assert_eq!(pairs[0], (0, 0, 0));
    assert_eq!(pairs[3], (3, 0, 3));
    assert_eq!(pairs[4], (4, 1, 0));
    assert_eq!(pairs[11], (11, 2, 3));
    for window in runs.windows(2) {
        assert!(window[0].t < window[1].t);
    }
}

#[test]
fn schedule_builds_an_input_before_its_treatments() {
    let plan = schedule(3, 2);
    let mut built = None;
    for step in plan {
        match step {
            Step::BuildInput { i } => {
                assert_eq!(i, built.map_or(0, |before: usize| before + 1));
                built = Some(i);
            }
            Step::Measure(run) => assert_eq!(Some(run.i), built),
        }
    }
    assert_eq!(built, Some(2));
}

#[test]
fn schedule_without_levels() {
    assert!(schedule(0, 0).is_empty());
    assert!(schedule(0, 7).is_empty());
    assert_eq!(
        schedule(2, 0),
        [Step::BuildInput { i: 0 }, Step::BuildInput { i: 1 }]
    );
}

#[test]
fn short_run_key_is_the_long_one_by_default() {
    let (treatments, variants) = two_by_two();
    let exp = MyExperiment;
    assert_eq!(
        exp.run_key_short(&treatments[1], &variants[0]),
        "width:5/len:1001_sort:false"
    );
}

#[test]
fn paths_of_a_benchmark() {
    let (treatments, variants) = two_by_two();
    let exp = MyExperiment;
    assert_eq!(
        exp.run_estimates_path("sorting", &treatments[0], &variants[1]),
        "target/criterion/sorting/width_2_len_1001_sort_true/new/estimates.json"
    );
    assert_eq!(exp.benchmark_file_path("sorting"), "benches/sorting.rs");
    assert_eq!(
        exp.summary_csv_path("sorting"),
        "target/criterion/sorting/summary_sorting.csv"
    );
    assert_eq!(
        exp.ai_prompt_path("sorting"),
        "target/criterion/sorting/prompt_sorting.md"
    );
}

#[test]
fn check_run_without_expected_output_passes() {
    let (treatments, variants) = two_by_two();
    let mut exp = MyExperiment;
    let input = exp.input(&treatments[0]);
    let output = exp.execute(&variants[1], &input);
    let checked = exp.check_run("width:2/len:1001_sort:true", &treatments[0], &input, output);
    assert_eq!(checked.unwrap(), vec![1, 0]);
}

#[test]
fn treatments_are_counted() {
    assert_eq!(num_treatments(2, 2), 4);
    assert_eq!(num_treatments(3, 4), 12);
    assert_eq!(num_treatments(0, 7), 0);
    assert_eq!(num_treatments(7, 0), 0);
    assert_eq!(
        num_treatments(usize::MAX, usize::MAX),
        usize::MAX as u128 * usize::MAX as u128
    );
    assert_eq!(num_treatments(3, 4) as usize, measured(&schedule(3, 4)).len());
}

#[test]
fn headings_count_from_one() {
    assert_eq!(
        bench_heading("sorting", 2, 3),
        "\n\n\n# sorting benchmarks with 2 data points and 3 variants => 6 treatments"
    );
    assert_eq!(
        input_heading(0, 2, "width:2"),
        "\n\n\n\n\n## Data point [1/2]: width:2"
    );
    assert_eq!(
        input_heading(1, 2, "width:5"),
        "\n\n\n\n\n## Data point [2/2]: width:5"
    );
    let run = Run { t: 4, i: 1, a: 1 };
    assert_eq!(
        run_heading(run, 2, 3, "width:5/len:1001_sort:true"),
        "\n### [5/6 || 2/3]: width:5/len:1001_sort:true"
    );
}

#[test]
fn headings_of_the_largest_numbers() {
    let most = usize::MAX as u128;
    let run = Run {
        t: usize::MAX,
        i: 0,
        a: usize::MAX,
    };
    assert_eq!(
        run_heading(run, usize::MAX, usize::MAX, ""),
        format!("\n### [{}/{} || {}/{}]: ", most + 1, most * most, most + 1, most)
    );
    assert_eq!(
        input_heading(usize::MAX, usize::MAX, ""),
        format!("\n\n\n\n\n## Data point [{}/{}]: ", most + 1, most)
    );
}
