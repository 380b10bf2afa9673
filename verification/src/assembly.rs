use vstd::prelude::*;

verus! {

/// Which constraint block a stacked row samples.
#[derive(Clone, Copy, Debug, PartialEq, Eq, Structural)]
pub enum ConstraintBlock {
    Passband,
    Stopband,
    Transition,
}

/// One row of the stacked constraint system: the block it comes from, the
/// row within that block, and whether the row enters negated. Every
/// inequality of the system is rewritten as `row . x <= 0` by pairing each
/// block row with its negated copy.
#[derive(Clone, Copy, Debug, PartialEq, Eq, Structural)]
pub struct StackedRow {
    pub block: ConstraintBlock,
    pub row: usize,
    pub negated: bool,
}

/// The row standing at position `k` of the stacked system built from
/// blocks of `p` passband, `s` stopband and `t` transition rows: first the
/// passband rows and their negations, then the stopband rows and their
/// negations, then the transition rows and their negations, each block in
/// its own order.
pub open spec fn stacked_row_spec(p: int, s: int, t: int, k: int) -> StackedRow {
    if k < p {
        StackedRow { block: ConstraintBlock::Passband, row: k as usize, negated: false }
    } else if k < 2 * p {
        StackedRow { block: ConstraintBlock::Passband, row: (k - p) as usize, negated: true }
    } else if k < 2 * p + s {
        StackedRow { block: ConstraintBlock::Stopband, row: (k - 2 * p) as usize, negated: false }
    } else if k < 2 * p + 2 * s {
        StackedRow {
            block: ConstraintBlock::Stopband,
            row: (k - 2 * p - s) as usize,
            negated: true,
        }
    } else if k < 2 * p + 2 * s + t {
        StackedRow {
            block: ConstraintBlock::Transition,
            row: (k - 2 * p - 2 * s) as usize,
            negated: false,
        }
    } else {
        StackedRow {
            block: ConstraintBlock::Transition,
            row: (k - 2 * p - 2 * s - t) as usize,
            negated: true,
        }
    }
}

/// Builds the row order of the stacked constraint system from the three
/// block sizes: the passband rows and their negations, then the stopband
/// pair, then the transition pair, so that position `k` holds exactly
/// `stacked_row_spec(p, s, t, k)`. A transition block of zero rows simply
/// contributes nothing.
pub fn assemble_rows(p: usize, s: usize, t: usize) -> (r: Vec<StackedRow>)
    requires
        2 * p + 2 * s + 2 * t <= usize::MAX,
    ensures
        r.len() == 2 * p + 2 * s + 2 * t,
        forall|k: int|
            0 <= k < r.len() ==> r[k] == stacked_row_spec(p as int, s as int, t as int, k),
{
    let total = 2 * p + 2 * s + 2 * t;
    let mut r: Vec<StackedRow> = Vec::new();
    let mut k: usize = 0;
    while k < total
        invariant
            k <= total,
            total == 2 * p + 2 * s + 2 * t,
            r.len() == k,
            forall|j: int|
                0 <= j < k ==> r[j] == stacked_row_spec(p as int, s as int, t as int, j),
        decreases total - k,
    {
        let row = if k < p {
            StackedRow { block: ConstraintBlock::Passband, row: k, negated: false }
        } else if k < 2 * p {
            StackedRow { block: ConstraintBlock::Passband, row: k - p, negated: true }
        } else if k < 2 * p + s {
            StackedRow { block: ConstraintBlock::Stopband, row: k - 2 * p, negated: false }
        } else if k < 2 * p + 2 * s {
            StackedRow { block: ConstraintBlock::Stopband, row: k - 2 * p - s, negated: true }
        } else if k < 2 * p + 2 * s + t {
            StackedRow { block: ConstraintBlock::Transition, row: k - 2 * p - 2 * s, negated: false }
        } else {
            StackedRow {
                block: ConstraintBlock::Transition,
                row: k - 2 * p - 2 * s - t,
                negated: true,
            }
        };
        r.push(row);
        k = k + 1;
    }
    r
}

} // verus!
