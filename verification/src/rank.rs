//! Ranks of the estimates of one input level.
//!
//! The estimates that one input level has for the algorithm levels form a
//! row. Within its row an estimate is the best if it is the smallest, the
//! worst if it is the largest, and in between otherwise; estimates closer
//! than the tolerance count as equal. A row may lack estimates: they take
//! no part in the smallest and the largest.

use crate::estimate::Estimate;
use vstd::prelude::*;

verus! {

/// Two estimates that differ by less than this many femtoseconds count as
/// equal.
pub const TOLERANCE_FEMTOS: u64 = 10;

/// How an estimate stands within its row.
#[derive(Clone, Copy, Debug, PartialEq, Eq, Structural)]
pub enum Rank {
    /// As small as the smallest estimate of the row.
    Best,
    /// As large as the largest estimate of the row, and not the best.
    Worst,
    /// Neither the best nor the worst.
    Intermediate,
    /// There is no estimate.
    Missing,
}

/// The smallest estimate of the row, in femtoseconds; `None` where the row
/// holds no estimate.
pub open spec fn row_min(row: Seq<Option<Estimate>>) -> Option<u64>
    decreases row.len(),
{
    if row.len() == 0 {
        None
    } else {
        let before = row_min(row.drop_last());
        match (row.last(), before) {
            (None, _) => before,
            (Some(last), None) => Some(last.femtos),
            (Some(last), Some(least)) => Some(
                if last.femtos < least {
                    last.femtos
                } else {
                    least
                },
            ),
        }
    }
}

/// The largest estimate of the row, in femtoseconds; `None` where the row
/// holds no estimate.
pub open spec fn row_max(row: Seq<Option<Estimate>>) -> Option<u64>
    decreases row.len(),
{
    if row.len() == 0 {
        None
    } else {
        let before = row_max(row.drop_last());
        match (row.last(), before) {
            (None, _) => before,
            (Some(last), None) => Some(last.femtos),
            (Some(last), Some(most)) => Some(
                if last.femtos > most {
                    last.femtos
                } else {
                    most
                },
            ),
        }
    }
}

/// Whether two estimates, in femtoseconds, differ by less than the
/// tolerance.
pub open spec fn within_tolerance(x: u64, y: u64) -> bool {
    x - y < TOLERANCE_FEMTOS && y - x < TOLERANCE_FEMTOS
}

/// The rank of a cell in a row with the given smallest and largest
/// estimates. The best comes before the worst: where all estimates of the
/// row are equal, all are the best.
pub open spec fn rank_of(cell: Option<Estimate>, min: Option<u64>, max: Option<u64>) -> Rank {
    match cell {
        None => Rank::Missing,
        Some(estimate) => {
            if min is Some && within_tolerance(min->0, estimate.femtos) {
                Rank::Best
            } else if max is Some && within_tolerance(max->0, estimate.femtos) {
                Rank::Worst
            } else {
                Rank::Intermediate
            }
        },
    }
}

/// The ranks of the cells of a row, in the order of the cells.
pub open spec fn ranks(row: Seq<Option<Estimate>>) -> Seq<Rank> {
    Seq::new(row.len(), |a: int| rank_of(row[a], row_min(row), row_max(row)))
}

/// The smallest estimate of a row is one of its estimates and none of them
/// is smaller; a row has none exactly if all its cells are empty.
pub proof fn lemma_row_min(row: Seq<Option<Estimate>>)
    ensures
        match row_min(row) {
            Some(least) => {
                &&& exists|a: int| 0 <= a < row.len() && row[a] == Some(Estimate { femtos: least })
                &&& forall|a: int|
                    0 <= a < row.len() && row[a] is Some ==> least <= (#[trigger] row[a])->0.femtos
            },
            None => forall|a: int| 0 <= a < row.len() ==> row[a] is None,
        },
    decreases row.len(),
{
    if row.len() > 0 {
        let front = row.drop_last();
        lemma_row_min(front);
        assert forall|a: int| 0 <= a < front.len() implies front[a] == row[a] by {}
        match row_min(front) {
            Some(least) => {
                let a = choose|a: int|
                    0 <= a < front.len() && front[a] == Some(Estimate { femtos: least });
                assert(row[a] == Some(Estimate { femtos: least }));
            },
            None => {},
        }
        match row.last() {
            Some(last) => {
                assert(row[row.len() - 1] == Some(Estimate { femtos: last.femtos }));
            },
            None => {},
        }
    }
}

/// The largest estimate of a row is one of its estimates and none of them
/// is larger; a row has none exactly if all its cells are empty.
pub proof fn lemma_row_max(row: Seq<Option<Estimate>>)
    ensures
        match row_max(row) {
            Some(most) => {
                &&& exists|a: int| 0 <= a < row.len() && row[a] == Some(Estimate { femtos: most })
                &&& forall|a: int|
                    0 <= a < row.len() && row[a] is Some ==> most >= (#[trigger] row[a])->0.femtos
            },
            None => forall|a: int| 0 <= a < row.len() ==> row[a] is None,
        },
    decreases row.len(),
{
    if row.len() > 0 {
        let front = row.drop_last();
        lemma_row_max(front);
        assert forall|a: int| 0 <= a < front.len() implies front[a] == row[a] by {}
        match row_max(front) {
            Some(most) => {
                let a = choose|a: int|
                    0 <= a < front.len() && front[a] == Some(Estimate { femtos: most });
                assert(row[a] == Some(Estimate { femtos: most }));
            },
            None => {},
        }
        match row.last() {
            Some(last) => {
                assert(row[row.len() - 1] == Some(Estimate { femtos: last.femtos }));
            },
            None => {},
        }
    }
}

/// Every cell of a row has a rank. It is missing exactly where the cell is
/// empty: empty cells do not keep the estimates from being ranked. The
/// smallest estimate of the row is the best, and the largest is the worst
/// unless it is as small as the smallest.
pub proof fn lemma_ranks(row: Seq<Option<Estimate>>)
    ensures
        ranks(row).len() == row.len(),
        forall|a: int|
            0 <= a < row.len() ==> (#[trigger] ranks(row)[a] == Rank::Missing <==> row[a] is None),
        forall|a: int|
            0 <= a < row.len() && row[a] is Some && row_min(row) == Some(row[a]->0.femtos)
                ==> #[trigger] ranks(row)[a] == Rank::Best,
        forall|a: int|
            0 <= a < row.len() && row[a] is Some && row_max(row) == Some(row[a]->0.femtos)
                ==> #[trigger] ranks(row)[a] == (if within_tolerance(
                row_min(row)->0,
                row[a]->0.femtos,
            ) {
                Rank::Best
            } else {
                Rank::Worst
            }),
{
    lemma_row_min(row);
    lemma_row_max(row);
}

/// The smallest and the largest estimate of a row, in femtoseconds.
pub fn row_extremes(row: &[Option<Estimate>]) -> (extremes: (Option<u64>, Option<u64>))
    ensures
        extremes.0 == row_min(row@),
        extremes.1 == row_max(row@),
{
    let mut min: Option<u64> = None;
    let mut max: Option<u64> = None;
    let mut a: usize = 0;
    while a < row.len()
        invariant
            a <= row.len(),
            min == row_min(row@.take(a as int)),
            max == row_max(row@.take(a as int)),
        decreases row.len() - a,
    {
        proof {
            assert(row@.take(a + 1).drop_last() =~= row@.take(a as int));
        }
        match row[a] {
            None => {},
            Some(estimate) => {
                min = match min {
                    None => Some(estimate.femtos),
                    Some(least) => Some(
                        if estimate.femtos < least {
                            estimate.femtos
                        } else {
                            least
                        },
                    ),
                };
                max = match max {
                    None => Some(estimate.femtos),
                    Some(most) => Some(
                        if estimate.femtos > most {
                            estimate.femtos
                        } else {
                            most
                        },
                    ),
                };
            },
        }
        a += 1;
    }
    assert(row@.take(a as int) =~= row@);
    (min, max)
}

/// The rank of one cell in a row with the given smallest and largest
/// estimates.
pub fn rank_cell(cell: Option<Estimate>, min: Option<u64>, max: Option<u64>) -> (rank: Rank)
    ensures
        rank == rank_of(cell, min, max),
{
    match cell {
        None => Rank::Missing,
        Some(estimate) => {
            if is_close(min, estimate.femtos) {
                Rank::Best
            } else if is_close(max, estimate.femtos) {
                Rank::Worst
            } else {
                Rank::Intermediate
            }
        },
    }
}

fn is_close(extreme: Option<u64>, femtos: u64) -> (close: bool)
    ensures
        close == (extreme is Some && within_tolerance(extreme->0, femtos)),
{
    match extreme {
        None => false,
        Some(x) => {
            if x >= femtos {
                x - femtos < TOLERANCE_FEMTOS
            } else {
                femtos - x < TOLERANCE_FEMTOS
            }
        },
    }
}

/// Ranks the estimates of one input level among themselves.
pub fn rank_row(row: &[Option<Estimate>]) -> (ranked: Vec<Rank>)
    ensures
        ranked@ == ranks(row@),
{
    let (min, max) = row_extremes(row);
    let mut ranked: Vec<Rank> = Vec::new();
    let mut a: usize = 0;
    while a < row.len()
        invariant
            a <= row.len(),
            ranked.len() == a,
            min == row_min(row@),
            max == row_max(row@),
            forall|j: int| 0 <= j < a ==> ranked[j] == rank_of(row[j], min, max),
        decreases row.len() - a,
    {
        ranked.push(rank_cell(row[a], min, max));
        a += 1;
    }
    assert(ranked@ =~= ranks(row@));
    ranked
}

} // verus!
