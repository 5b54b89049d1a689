//! The contract of an experiment, and the check of an output against the
//! expected one.

use crate::alg_factors::AlgFactors;
use crate::input_factors::InputFactors;
use std::fmt::Debug;
use vstd::prelude::*;
use vstd::std_specs::cmp::PartialEqSpec;
use vstd::string::StringExecFns;

verus! {

/// An experiment to analyze the impact of algorithm factors on solution time
/// over inputs defined by input factors.
///
/// Every input level is crossed with every algorithm level; each pair is a
/// treatment. The input of a level is built once and shared, unchanged, by
/// all the algorithm levels that run on it.
pub trait Experiment: Sized {
    /// Input factors of the experiment; each value defines one input.
    type InputFactors: InputFactors;

    /// Algorithm factors to evaluate; each value is one variant.
    type AlgFactors: AlgFactors;

    /// Input of the problem.
    type Input;

    /// Output of the problem.
    type Output: PartialEq + Debug;

    /// Creates the input of the problem defined by `input_variant`.
    ///
    /// It is called once for each input level, and the time it takes is not
    /// measured.
    fn input(&mut self, input_variant: &Self::InputFactors) -> Self::Input;

    /// Executes the variant `alg_variant` on `input` and returns the output.
    ///
    /// This is the operation that is timed. It is called many times for one
    /// treatment and must not change what later calls see.
    fn execute(&mut self, alg_variant: &Self::AlgFactors, input: &Self::Input) -> Self::Output;

    /// The output that `execute` must produce for the given input, whatever
    /// the variant; `None`, the default, where no output is prescribed.
    fn expected_output(
        &self,
        input_variant: &Self::InputFactors,
        input: &Self::Input,
    ) -> (expected: Option<Self::Output>)
        default_ensures
            expected is None,
    {
        None
    }

    /// Further checks of an output that do not ask for one exact value; by
    /// default there are none.
    fn validate_output(
        &self,
        input_variant: &Self::InputFactors,
        input: &Self::Input,
        output: &Self::Output,
    ) {
    }
}

/// An output that differs from the expected one. The whole run of
/// treatments ends with it.
#[derive(Debug)]
pub struct Mismatch<T> {
    /// The long key of the treatment whose output was wrong.
    pub run_key: String,
    /// The output of the treatment.
    pub output: T,
    /// The output that was expected.
    pub expected: T,
}

/// What the report of a wrong output says before the key of the treatment.
pub const MISMATCH: &'static str =
    "Output of run is not equal to expected output. Run: ";

/// The text that reports a wrong output of the treatment with this key.
pub open spec fn mismatch_text(run_key: Seq<char>) -> Seq<char> {
    MISMATCH@ + run_key
}

impl<T> Mismatch<T> {
    /// The failure as a sentence that names the treatment.
    pub fn message(&self) -> (text: String)
        ensures
            text@ == mismatch_text(self.run_key@),
    {
        let mut text = String::from_str(MISMATCH);
        text.append(self.run_key.as_str());
        text
    }
}

/// Holds the output of one treatment against the expected output.
///
/// Without an expected output every output passes. With one, the output
/// passes if it is equal to it; otherwise the failure carries the
/// treatment's key and both outputs. An output that passes is handed back.
pub fn check_output<T: PartialEq>(
    run_key: &str,
    output: T,
    expected: Option<T>,
) -> (checked: Result<T, Mismatch<T>>)
    ensures
        expected is None ==> checked is Ok,
        T::obeys_eq_spec() ==> (checked is Ok <==> (expected matches Some(e) ==> output.eq_spec(
            &e,
        ))),
        checked matches Ok(passed) ==> passed == output,
        checked matches Err(mismatch) ==> {
            &&& mismatch.run_key@ == run_key@
            &&& mismatch.output == output
            &&& expected == Some(mismatch.expected)
        },
{
    match expected {
        None => Ok(output),
        Some(e) => {
            if output == e {
                Ok(output)
            } else {
                Err(Mismatch { run_key: String::from_str(run_key), output, expected: e })
            }
        },
    }
}

} // verus!
