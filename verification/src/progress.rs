//! The lines that tell how far a run of treatments has come. The numbers
//! that they show count from one.

use crate::grid::{num_treatments, Run};
use crate::text::{decimal, decimal_string};
use vstd::prelude::*;
use vstd::string::StringExecFns;

verus! {

/// The line that opens the run of the benchmark `name`.
pub open spec fn bench_heading_text(name: Seq<char>, num_inputs: nat, num_algs: nat) -> Seq<char> {
    "\n\n\n# "@ + name + " benchmarks with "@ + decimal(num_inputs) + " data points and "@
        + decimal(num_algs) + " variants => "@ + decimal(num_inputs * num_algs) + " treatments"@
}

/// The line that opens the input level `i`, counted from zero, with the
/// long key `key`.
pub open spec fn input_heading_text(i: nat, num_inputs: nat, key: Seq<char>) -> Seq<char> {
    "\n\n\n\n\n## Data point ["@ + decimal(i + 1) + "/"@ + decimal(num_inputs) + "]: "@ + key
}

/// The line that opens the treatment `run` with the long key `key`.
pub open spec fn run_heading_text(
    run: Run,
    num_inputs: nat,
    num_algs: nat,
    key: Seq<char>,
) -> Seq<char> {
    "\n### ["@ + decimal((run.t + 1) as nat) + "/"@ + decimal(num_inputs * num_algs) + " || "@
        + decimal((run.a + 1) as nat) + "/"@ + decimal(num_algs) + "]: "@ + key
}

/// Writes the line that opens the run of a benchmark: its name and the
/// numbers of input levels, of algorithm levels and of their treatments.
pub fn bench_heading(name: &str, num_inputs: usize, num_algs: usize) -> (line: String)
    ensures
        line@ == bench_heading_text(name@, num_inputs as nat, num_algs as nat),
{
    let mut line = String::from_str("\n\n\n# ");
    line.append(name);
    line.append(" benchmarks with ");
    line.append(decimal_string(num_inputs as u128).as_str());
    line.append(" data points and ");
    line.append(decimal_string(num_algs as u128).as_str());
    line.append(" variants => ");
    line.append(decimal_string(num_treatments(num_inputs, num_algs)).as_str());
    line.append(" treatments");
    line
}

/// Writes the line that opens an input level: its number among the input
/// levels, and its long key.
pub fn input_heading(i: usize, num_inputs: usize, key: &str) -> (line: String)
    ensures
        line@ == input_heading_text(i as nat, num_inputs as nat, key@),
{
    let mut line = String::from_str("\n\n\n\n\n## Data point [");
    line.append(decimal_string(i as u128 + 1).as_str());
    line.append("/");
    line.append(decimal_string(num_inputs as u128).as_str());
    line.append("]: ");
    line.append(key);
    line
}

/// Writes the line that opens a treatment: its number among the
/// treatments, the number of its algorithm level among the algorithm
/// levels, and its long key.
pub fn run_heading(run: Run, num_inputs: usize, num_algs: usize, key: &str) -> (line: String)
    ensures
        line@ == run_heading_text(run, num_inputs as nat, num_algs as nat, key@),
{
    let mut line = String::from_str("\n### [");
    line.append(decimal_string(run.t as u128 + 1).as_str());
    line.append("/");
    line.append(decimal_string(num_treatments(num_inputs, num_algs)).as_str());
    line.append(" || ");
    line.append(decimal_string(run.a as u128 + 1).as_str());
    line.append("/");
    line.append(decimal_string(num_algs as u128).as_str());
    line.append("]: ");
    line.append(key);
    line
}

} // verus!
