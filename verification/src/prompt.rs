//! The draft of a prompt that asks for an analysis of the summary of a
//! benchmark.
//!
//! The draft describes the experiment in plain words: where the summary
//! lies, how many input levels, algorithm levels and treatments there are,
//! and which factors define them.

use crate::grid::num_treatments;
use crate::text::{decimal, decimal_string, join_with, joined, owned_strings};
use vstd::prelude::*;
use vstd::string::StringExecFns;

verus! {

/// What the draft says up to the path of the summary.
pub const BEFORE_PATH: &'static str = "\nThe file at '\"";

/// What it says between the path and the name of the benchmark.
pub const BEFORE_NAME: &'static str =
    "\"' is the output of a full-factorial experiment for the '";

/// What it says between the name and the number of input levels.
pub const BEFORE_NUM_INPUTS: &'static str = "' benchmark.\n\nThe experiment is applied on ";

/// What it says between that number and the names of the input factors.
pub const BEFORE_INPUT_NAMES: &'static str =
    " data sets.\nEach data set is defined by combination of values of factors '";

/// What it says between those names and the number of algorithm levels.
pub const BEFORE_NUM_VARIANTS: &'static str =
    "'.\nEach data set, or combination, gets a unique index specified in column 'i'.\n\nProblem of each data set is solved by ";

/// What it says between that number and the names of the algorithm
/// factors.
pub const BEFORE_ALG_NAMES: &'static str =
    " algorithm variants.\nEach variant is defined by combination of values of parameters '";

/// What it says between those names and the number of treatments.
pub const BEFORE_NUM_TREATMENTS: &'static str =
    "'.\nEach algorithm variant gets a unique index specified in column 'a'.\n\nIn total, there exist ";

/// What it says after the number of treatments.
pub const AFTER_NUM_TREATMENTS: &'static str =
    " treatments as unique combinations of input data settings and algorithm variant parameters.\nEach treatment gets a unique index specified in column 't'.\n\nThe response variable is the time.\nAlthough we have a single value per treatment, these values are obtained by the 'criterion' crate which runs sufficiently large number of repetitions to obtain these point estimates.\n\nThe objective is to solve the problem as fast as possible.\nIn other words, we want to minimize elapsed time.\nWe are searching the best values of the parameters, or best variant, that would perform the best across different data sets.\n\nPlease analyze the output of the experiment and provide insights.\n    ";

/// What separates the names of the factors.
pub const BETWEEN_NAMES: &'static str = ", ";

/// The draft of a prompt that asks for an analysis of the summary of the
/// benchmark `name`, written to `summary_path`: it names the file, the
/// numbers of input levels, of algorithm levels and of their treatments, and
/// the factors of both.
pub open spec fn prompt_text(
    name: Seq<char>,
    summary_path: Seq<char>,
    num_inputs: nat,
    input_names: Seq<Seq<char>>,
    num_variants: nat,
    alg_names: Seq<Seq<char>>,
) -> Seq<char> {
    BEFORE_PATH@ + summary_path + BEFORE_NAME@ + name + BEFORE_NUM_INPUTS@ + decimal(num_inputs)
        + BEFORE_INPUT_NAMES@ + joined(input_names, BETWEEN_NAMES@) + BEFORE_NUM_VARIANTS@
        + decimal(num_variants) + BEFORE_ALG_NAMES@ + joined(alg_names, BETWEEN_NAMES@)
        + BEFORE_NUM_TREATMENTS@ + decimal(num_inputs * num_variants) + AFTER_NUM_TREATMENTS@
}

/// Drafts the prompt that asks for an analysis of the summary.
pub fn analysis_prompt(
    name: &str,
    summary_path: &str,
    num_inputs: usize,
    input_names: &[&'static str],
    num_variants: usize,
    alg_names: &[&'static str],
) -> (text: String)
    ensures
        text@ == prompt_text(
            name@,
            summary_path@,
            num_inputs as nat,
            input_names.deep_view(),
            num_variants as nat,
            alg_names.deep_view(),
        ),
{
    let inputs = join_with(owned_strings(input_names).as_slice(), BETWEEN_NAMES);
    let variants = join_with(owned_strings(alg_names).as_slice(), BETWEEN_NAMES);
    let mut text = String::from_str(BEFORE_PATH);
    text.append(summary_path);
    text.append(BEFORE_NAME);
    text.append(name);
    text.append(BEFORE_NUM_INPUTS);
    text.append(decimal_string(num_inputs as u128).as_str());
    text.append(BEFORE_INPUT_NAMES);
    text.append(inputs.as_str());
    text.append(BEFORE_NUM_VARIANTS);
    text.append(decimal_string(num_variants as u128).as_str());
    text.append(BEFORE_ALG_NAMES);
    text.append(variants.as_str());
    text.append(BEFORE_NUM_TREATMENTS);
    text.append(decimal_string(num_treatments(num_inputs, num_variants)).as_str());
    text.append(AFTER_NUM_TREATMENTS);
    text
}

} // verus!
