//! Point estimates: finding one in the statistics that the timing harness
//! leaves for a treatment, and writing one down.
//!
//! The statistics are read as raw bytes; only two of their fields are
//! looked for. An estimate is held as a whole number of femtoseconds, a
//! millionth of the nanosecond in which it is reported.

use crate::search::{find, first_match, lemma_first_match};
use crate::text::{decimal, decimal_string};
use vstd::prelude::*;
use vstd::slice::slice_subrange;
use vstd::string::StringSliceAdditionalSpecFns;

verus! {

/// The femtoseconds that make one nanosecond.
pub const FEMTOS_PER_NANO: u64 = 1_000_000;

/// A point estimate of the time that one execution takes.
#[derive(Clone, Copy, Debug, PartialEq, Eq, Structural)]
pub struct Estimate {
    /// The time in femtoseconds.
    pub femtos: u64,
}

/// The nearest whole number of nanoseconds; of two that are equally near,
/// the even one.
pub open spec fn rounded_nanos(femtos: nat) -> nat {
    let whole = femtos / 1_000_000;
    let rest = femtos % 1_000_000;
    if rest > 500_000 || (rest == 500_000 && whole % 2 == 1) {
        whole + 1
    } else {
        whole
    }
}

impl View for Estimate {
    type V = Estimate;

    open spec fn view(&self) -> Estimate {
        *self
    }
}

impl DeepView for Estimate {
    type V = Estimate;

    open spec fn deep_view(&self) -> Estimate {
        *self
    }
}

impl Estimate {
    /// The estimate in nanoseconds, rounded to a whole number, in decimal.
    pub fn nanos_text(&self) -> (text: String)
        ensures
            text@ == decimal(rounded_nanos(self.femtos as nat)),
    {
        let whole = self.femtos / FEMTOS_PER_NANO;
        let rest = self.femtos % FEMTOS_PER_NANO;
        let nanos = if rest > 500_000 || (rest == 500_000 && whole % 2 == 1) {
            whole + 1
        } else {
            whole
        };
        decimal_string(nanos as u128)
    }
}

/// The field whose presence says that the statistics hold no slope.
pub const SLOPE_NULL: &'static str = "\"slope\":null";

/// The name of the field that holds the slope.
pub const SLOPE: &'static str = "\"slope\"";

/// The name of the field that holds the mean.
pub const MEAN: &'static str = "\"mean\"";

/// The start of the point estimate inside a field.
pub const POINT_ESTIMATE: &'static str = "\"point_estimate\":";

/// What ends the text of the point estimate.
pub const VALUE_END: &'static str = ",";

/// The field from which the estimate is taken: the slope, or the mean where
/// the statistics say that the slope is null.
pub open spec fn estimate_field(contents: Seq<u8>) -> Seq<u8> {
    if first_match(contents, SLOPE_NULL.spec_bytes()) is Some {
        MEAN.spec_bytes()
    } else {
        SLOPE.spec_bytes()
    }
}

/// Where the text of the point estimate starts and ends in the statistics:
/// after the first `"point_estimate":` that follows the first occurrence of
/// the chosen field's name, up to the next comma. `None` where one of the
/// three is not found. Places count bytes.
pub open spec fn point_estimate_span(contents: Seq<u8>) -> Option<(int, int)> {
    let field = estimate_field(contents);
    match first_match(contents, field) {
        None => None,
        Some(field_at) => {
            let after_field = field_at + field.len();
            match first_match(contents.skip(after_field), POINT_ESTIMATE.spec_bytes()) {
                None => None,
                Some(intro_at) => {
                    let start = after_field + intro_at + POINT_ESTIMATE.spec_bytes().len();
                    match first_match(contents.skip(start), VALUE_END.spec_bytes()) {
                        None => None,
                        Some(len) => Some((start, start + len)),
                    }
                },
            }
        },
    }
}

/// Finds the text of the point estimate in the statistics of a treatment:
/// that of the slope, or that of the mean where the slope is null.
///
/// The text is handed out as it stands, to be read as a number of
/// nanoseconds; `None` where the statistics do not hold the fields.
pub fn get_slope_point_estimate(contents: &[u8]) -> (text: Option<&[u8]>)
    ensures
        match point_estimate_span(contents@) {
            Some((start, end)) => {
                &&& 0 <= start <= end <= contents@.len()
                &&& text matches Some(t)
                &&& t@ == contents@.subrange(start, end)
            },
            None => text is None,
        },
{
    let n = contents.len();
    let is_slope_null = find(contents, SLOPE_NULL.as_bytes()).is_some();
    let field = if is_slope_null {
        MEAN.as_bytes()
    } else {
        SLOPE.as_bytes()
    };
    assert(field@ == estimate_field(contents@));
    let intro = POINT_ESTIMATE.as_bytes();
    let field_at = match find(contents, field) {
        None => {
            return None;
        },
        Some(at) => at,
    };
    proof {
        lemma_first_match(contents@, field@);
    }
    let after_field = field_at + field.len();
    let intro_at = match find(slice_subrange(contents, after_field, n), intro) {
        None => {
            return None;
        },
        Some(at) => at,
    };
    proof {
        lemma_first_match(contents@.skip(after_field as int), intro@);
    }
    let start = after_field + intro_at + intro.len();
    let len = match find(slice_subrange(contents, start, n), VALUE_END.as_bytes()) {
        None => {
            return None;
        },
        Some(len) => len,
    };
    proof {
        lemma_first_match(contents@.skip(start as int), VALUE_END.spec_bytes());
    }
    Some(slice_subrange(contents, start, start + len))
}

} // verus!
