//! Keys of treatments and the places of the files that belong to a
//! benchmark.
//!
//! Paths are texts whose components are separated by `/`.

use crate::alg_factors::AlgFactors;
use crate::experiment::{check_output, Experiment, Mismatch};
use crate::input_factors::InputFactors;
use vstd::prelude::*;
use vstd::string::{StrSliceExecFns, StringExecFns};

verus! {

/// The key of the treatment that pairs the input with the key `input_key`
/// and the variant with the key `alg_key`.
pub open spec fn run_key(input_key: Seq<char>, alg_key: Seq<char>) -> Seq<char> {
    input_key + seq!['/'] + alg_key
}

/// Whether a character of a key cannot stand in the name of a directory.
pub open spec fn is_path_unsafe(c: char) -> bool {
    c == '/' || c == ':'
}

/// The key with `_` in the place of every `/` and `:`.
pub open spec fn sanitized(key: Seq<char>) -> Seq<char> {
    key.map_values(
        |c: char|
            if is_path_unsafe(c) {
                '_'
            } else {
                c
            },
    )
}

/// The directory under which the timing harness keeps what it measures,
/// one directory for each benchmark.
pub const HARNESS_DIR: &'static str = "target/criterion/";

/// Where, under the directory of a treatment, the estimates lie.
pub const ESTIMATES_FILE: &'static str = "/new/estimates.json";

/// The directory of the sources of the benchmarks.
pub const BENCHES_DIR: &'static str = "benches/";

/// Where the timing harness leaves the estimates of the treatment with the
/// short key `run_key_short`.
pub open spec fn estimates_path(bench_name: Seq<char>, run_key_short: Seq<char>) -> Seq<char> {
    HARNESS_DIR@ + bench_name + seq!['/'] + sanitized(run_key_short) + ESTIMATES_FILE@
}

/// Where the source of the benchmark lies.
pub open spec fn benchmark_file(bench_name: Seq<char>) -> Seq<char> {
    BENCHES_DIR@ + bench_name + ".rs"@
}

/// Where the summary table of the benchmark is written.
pub open spec fn summary_csv_file(bench_name: Seq<char>) -> Seq<char> {
    HARNESS_DIR@ + bench_name + "/summary_"@ + bench_name + ".csv"@
}

/// Where the draft of a prompt to analyze the summary is written.
pub open spec fn ai_prompt_file(bench_name: Seq<char>) -> Seq<char> {
    HARNESS_DIR@ + bench_name + "/prompt_"@ + bench_name + ".md"@
}

/// A sanitized key is as long as the key and holds neither `/` nor `:`.
pub proof fn lemma_sanitized_is_safe(key: Seq<char>)
    ensures
        sanitized(key).len() == key.len(),
        forall|k: int| 0 <= k < key.len() ==> !is_path_unsafe(#[trigger] sanitized(key)[k]),
{
}

/// Joins the key of an input and the key of a variant into the key of
/// their treatment.
pub fn join_run_key(input_key: &str, alg_key: &str) -> (key: String)
    ensures
        key@ == run_key(input_key@, alg_key@),
{
    proof {
        reveal_strlit("/");
    }
    let mut key = String::from_str(input_key);
    key.append("/");
    key.append(alg_key);
    assert(key@ =~= run_key(input_key@, alg_key@));
    key
}

/// Replaces every `/` and `:` of the key by `_`, so that the key can name a
/// directory.
pub fn sanitize(key: &str) -> (clean: String)
    ensures
        clean@ == sanitized(key@),
{
    let len = key.unicode_len();
    let mut clean = String::new();
    let mut start: usize = 0;
    let mut at: usize = 0;
    for c in it: key.chars()
        invariant
            it.seq() == key@,
            len == key@.len(),
            at == it.index(),
            start <= at,
            clean@ == sanitized(key@.take(start as int)),
            forall|j: int| start <= j < at ==> !is_path_unsafe(key@[j]),
    {
        if c == '/' || c == ':' {
            proof {
                reveal_strlit("_");
            }
            clean.append(key.substring_char(start, at));
            clean.append("_");
            assert(clean@ =~= sanitized(key@.take(at + 1)));
            start = at + 1;
        }
        at = at + 1;
    }
    clean.append(key.substring_char(start, len));
    assert(clean@ =~= sanitized(key@));
    clean
}

/// The path of the file in which the timing harness leaves the estimates
/// of the treatment with the short key `run_key_short`.
pub fn run_estimates_file(bench_name: &str, run_key_short: &str) -> (path: String)
    ensures
        path@ == estimates_path(bench_name@, run_key_short@),
{
    proof {
        reveal_strlit("/");
    }
    let clean = sanitize(run_key_short);
    let mut path = String::from_str(HARNESS_DIR);
    path.append(bench_name);
    path.append("/");
    path.append(clean.as_str());
    path.append(ESTIMATES_FILE);
    assert(path@ =~= estimates_path(bench_name@, run_key_short@));
    path
}

/// What every experiment offers beyond its own methods: the keys of its
/// treatments, the paths of the files of a benchmark, and the check of the
/// output of a treatment. These methods cannot be implemented anew.
pub trait ExperimentSealed: Experiment {
    /// Long key of the treatment of the input `input_variant` and the
    /// algorithm `alg_variant`: their long keys, joined by `/`.
    fn run_key_long(
        &self,
        input_variant: &Self::InputFactors,
        alg_variant: &Self::AlgFactors,
    ) -> (key: String)
        ensures
            exists|input_key: String, alg_key: String|
                #![trigger
                    call_ensures(<Self::InputFactors as InputFactors>::key_long, (input_variant,), input_key),
                    call_ensures(<Self::AlgFactors as AlgFactors>::key_long, (alg_variant,), alg_key),
                ]
                call_ensures(
                    <Self::InputFactors as InputFactors>::key_long,
                    (input_variant,),
                    input_key,
                ) && call_ensures(
                    <Self::AlgFactors as AlgFactors>::key_long,
                    (alg_variant,),
                    alg_key,
                ) && key@ == run_key(input_key@, alg_key@),
    {
        let input_key = input_variant.key_long();
        let alg_key = alg_variant.key_long();
        join_run_key(input_key.as_str(), alg_key.as_str())
    }

    /// Short key of the treatment of the input `input_variant` and the
    /// algorithm `alg_variant`: their short keys, joined by `/`.
    fn run_key_short(
        &self,
        input_variant: &Self::InputFactors,
        alg_variant: &Self::AlgFactors,
    ) -> (key: String)
        ensures
            exists|input_key: String, alg_key: String|
                #![trigger
                    call_ensures(<Self::InputFactors as InputFactors>::key_short, (input_variant,), input_key),
                    call_ensures(<Self::AlgFactors as AlgFactors>::key_short, (alg_variant,), alg_key),
                ]
                call_ensures(
                    <Self::InputFactors as InputFactors>::key_short,
                    (input_variant,),
                    input_key,
                ) && call_ensures(
                    <Self::AlgFactors as AlgFactors>::key_short,
                    (alg_variant,),
                    alg_key,
                ) && key@ == run_key(input_key@, alg_key@),
    {
        let input_key = input_variant.key_short();
        let alg_key = alg_variant.key_short();
        join_run_key(input_key.as_str(), alg_key.as_str())
    }

    /// Path of the file of estimates that the timing harness writes for the
    /// treatment of `input_variant` and `alg_variant`, found by the
    /// treatment's short key.
    fn run_estimates_path(
        &self,
        bench_name: &str,
        input_variant: &Self::InputFactors,
        alg_variant: &Self::AlgFactors,
    ) -> (path: String)
        ensures
            exists|key: String| #[trigger]
                call_ensures(Self::run_key_short, (self, input_variant, alg_variant), key) && path@
                    == estimates_path(bench_name@, key@),
    {
        let key = self.run_key_short(input_variant, alg_variant);
        run_estimates_file(bench_name, key.as_str())
    }

    /// Path of the benchmark file that holds this experiment.
    fn benchmark_file_path(&self, bench_name: &str) -> (path: String)
        ensures
            path@ == benchmark_file(bench_name@),
    {
        let mut path = String::from_str(BENCHES_DIR);
        path.append(bench_name);
        path.append(".rs");
        path
    }

    /// Path of the csv file with the summary table, written when the
    /// benchmark has run.
    fn summary_csv_path(&self, bench_name: &str) -> (path: String)
        ensures
            path@ == summary_csv_file(bench_name@),
    {
        let mut path = String::from_str(HARNESS_DIR);
        path.append(bench_name);
        path.append("/summary_");
        path.append(bench_name);
        path.append(".csv");
        path
    }

    /// Path of the markdown file with the draft of a prompt to analyze the
    /// summary, written when the benchmark has run.
    fn ai_prompt_path(&self, bench_name: &str) -> (path: String)
        ensures
            path@ == ai_prompt_file(bench_name@),
    {
        let mut path = String::from_str(HARNESS_DIR);
        path.append(bench_name);
        path.append("/prompt_");
        path.append(bench_name);
        path.append(".md");
        path
    }

    /// Checks the output that a treatment gave when it was executed once,
    /// outside the measurement: the output is validated and then held
    /// against the expected output, if there is one. The result is that of
    /// `check_output` for what `expected_output` returns.
    ///
    /// A wrong output is reported under `run_key`.
    fn check_run(
        &self,
        run_key: &str,
        input_variant: &Self::InputFactors,
        input: &Self::Input,
        output: Self::Output,
    ) -> (checked: Result<Self::Output, Mismatch<Self::Output>>)
        ensures
            exists|expected: Option<Self::Output>|
                #![trigger
                    call_ensures(check_output::<Self::Output>, (run_key, output, expected), checked),
                ]
                call_ensures(Self::expected_output, (self, input_variant, input), expected)
                    && call_ensures(
                    check_output::<Self::Output>,
                    (run_key, output, expected),
                    checked,
                ),
    {
        self.validate_output(input_variant, input, &output);
        let expected = self.expected_output(input_variant, input);
        check_output(run_key, output, expected)
    }
}

impl<X: Experiment> ExperimentSealed for X {

}

} // verus!
