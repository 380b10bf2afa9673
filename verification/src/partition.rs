use vstd::prelude::*;

use crate::config::DesignConfig;
use crate::grid::FrequencyGrid;
use vstd::arithmetic::mul::lemma_mul_inequality;

verus! {

/// A contiguous, half-open range of grid rows.
#[derive(Clone, Copy, Debug, PartialEq, Eq, Structural)]
pub struct RowRange {
    pub start: usize,
    pub end: usize,
}

impl RowRange {
    pub open spec fn wf(self) -> bool {
        self.start <= self.end
    }

    pub open spec fn len_spec(self) -> int {
        self.end - self.start
    }

    pub open spec fn contains(self, i: int) -> bool {
        self.start <= i < self.end
    }

    /// Number of rows in the range.
    pub fn len(&self) -> (l: usize)
        requires
            self.wf(),
        ensures
            l == self.len_spec(),
    {
        self.end - self.start
    }

    /// Whether the range has no rows.
    pub fn is_empty(&self) -> (b: bool)
        requires
            self.wf(),
        ensures
            b <==> self.len_spec() == 0,
    {
        self.start == self.end
    }
}

/// Grid row `i` (frequency `pi * i / den`) lies in the passband when its
/// frequency is at or below the passband edge `pi * wpass_num / wpass_den`.
pub open spec fn in_passband(cfg: DesignConfig, den: int, i: int) -> bool {
    i * cfg.wpass_den <= cfg.wpass_num * den
}

/// Grid row `i` lies in the stopband when its frequency is at or above the
/// stopband edge `pi * wstop_num / wstop_den`.
pub open spec fn in_stopband(cfg: DesignConfig, den: int, i: int) -> bool {
    i * cfg.wstop_den >= cfg.wstop_num * den
}

/// The passband predicate is downward closed in the row index.
pub proof fn lemma_passband_prefix(cfg: DesignConfig, den: int, i: int, j: int)
    requires
        cfg.valid(),
        0 <= i <= j,
        in_passband(cfg, den, j),
    ensures
        in_passband(cfg, den, i),
{
    lemma_mul_inequality(i, j, cfg.wpass_den as int);
}

/// The stopband predicate is upward closed in the row index.
pub proof fn lemma_stopband_suffix(cfg: DesignConfig, den: int, i: int, j: int)
    requires
        cfg.valid(),
        0 <= i <= j,
        in_stopband(cfg, den, i),
    ensures
        in_stopband(cfg, den, j),
{
    lemma_mul_inequality(i, j, cfg.wstop_den as int);
}

/// With ordered band edges no row lies in both bands.
pub proof fn lemma_bands_exclusive(cfg: DesignConfig, den: int, i: int)
    requires
        cfg.valid(),
        den >= 1,
        0 <= i,
    ensures
        !(in_passband(cfg, den, i) && in_stopband(cfg, den, i)),
{
    if in_passband(cfg, den, i) && in_stopband(cfg, den, i) {
        assert(false) by (nonlinear_arith)
            requires
                i * cfg.wpass_den <= cfg.wpass_num * den,
                i * cfg.wstop_den >= cfg.wstop_num * den,
                cfg.wpass_num * cfg.wstop_den < cfg.wstop_num * cfg.wpass_den,
                cfg.wpass_den >= 1,
                cfg.wstop_den >= 1,
                den >= 1,
                i >= 0,
        ;
    }
}

/// The grid rows split into passband prefix, transition middle and stopband
/// suffix: three adjacent ranges that cover `0..m`, where membership of the
/// passband and stopband ranges agrees exactly with the frequency
/// thresholds, and the passband and stopband are never empty.
#[derive(Clone, Copy, Debug, PartialEq, Eq, Structural)]
pub struct BandPartition {
    pub pass: RowRange,
    pub trans: RowRange,
    pub stop: RowRange,
}

impl BandPartition {
    pub open spec fn partitions(self, cfg: DesignConfig, den: int, m: int) -> bool {
        &&& self.pass.start == 0
        &&& self.pass.end == self.trans.start
        &&& self.trans.end == self.stop.start
        &&& self.stop.end == m
        &&& self.pass.wf()
        &&& self.trans.wf()
        &&& self.stop.wf()
        &&& self.pass.len_spec() >= 1
        &&& self.stop.len_spec() >= 1
        &&& forall|i: int|
            0 <= i < m ==> (self.pass.contains(i) <==> in_passband(cfg, den, i))
        &&& forall|i: int|
            0 <= i < m ==> (self.stop.contains(i) <==> in_stopband(cfg, den, i))
    }
}

/// Splits the grid rows into passband, transition and stopband blocks by the
/// configured frequency thresholds. Boundary rows belong to exactly one
/// block; the transition block may be empty.
#[verifier::loop_isolation(false)]
pub fn split_bands(cfg: &DesignConfig, grid: &FrequencyGrid) -> (p: BandPartition)
    requires
        cfg.valid(),
        grid.wf(),
        grid.den * cfg.wpass_den <= usize::MAX,
        cfg.wpass_num * grid.den <= usize::MAX,
        grid.den * cfg.wstop_den <= usize::MAX,
        cfg.wstop_num * grid.den <= usize::MAX,
    ensures
        p.partitions(*cfg, grid.den as int, grid.num.len() as int),
{
    let den = grid.den;
    let m = grid.len();
    let pass_bound = cfg.wpass_num * den;
    let stop_bound = cfg.wstop_num * den;

    let mut pass_end: usize = 0;
    let mut i: usize = 0;
    while i < m
        invariant
            i <= m,
            pass_end <= i,
            forall|j: int| 0 <= j < pass_end ==> in_passband(*cfg, den as int, j),
            forall|j: int| pass_end <= j < i ==> !in_passband(*cfg, den as int, j),
        decreases m - i,
    {
        proof {
            lemma_mul_inequality(i as int, den as int, cfg.wpass_den as int);
        }
        if i * cfg.wpass_den <= pass_bound {
            proof {
                if pass_end < i {
                    lemma_passband_prefix(*cfg, den as int, pass_end as int, i as int);
                    assert(false);
                }
            }
            pass_end = i + 1;
        }
        i = i + 1;
    }
    assert(0 * (cfg.wpass_den as int) <= (cfg.wpass_num as int) * (den as int))
        by (nonlinear_arith)
        requires
            cfg.wpass_num >= 0,
            den >= 0,
    ;
    assert(in_passband(*cfg, den as int, 0));
    assert(pass_end >= 1);

    let mut stop_start: usize = m;
    let mut k: usize = m;
    while k > 0
        invariant
            k <= stop_start <= m,
            forall|j: int| stop_start <= j < m ==> in_stopband(*cfg, den as int, j),
            forall|j: int| k <= j < stop_start ==> !in_stopband(*cfg, den as int, j),
        decreases k,
    {
        k = k - 1;
        proof {
            lemma_mul_inequality(k as int, den as int, cfg.wstop_den as int);
        }
        if k * cfg.wstop_den >= stop_bound {
            proof {
                if k + 1 < stop_start {
                    lemma_stopband_suffix(*cfg, den as int, k as int, k + 1 as int);
                    assert(false);
                }
            }
            stop_start = k;
        }
    }
    assert((den as int) * (cfg.wstop_den as int) >= (cfg.wstop_num as int) * (den as int))
        by (nonlinear_arith)
        requires
            cfg.wstop_num <= cfg.wstop_den,
            den >= 0,
    ;
    assert(in_stopband(*cfg, den as int, den as int));
    assert(stop_start <= m - 1);

    assert(pass_end <= stop_start) by {
        if stop_start < pass_end {
            lemma_bands_exclusive(*cfg, den as int, stop_start as int);
        }
    }

    BandPartition {
        pass: RowRange { start: 0, end: pass_end },
        trans: RowRange { start: pass_end, end: stop_start },
        stop: RowRange { start: stop_start, end: m },
    }
}

/// The exact-cover law: the three blocks of a partition have row counts that
/// sum to the grid length, they are pairwise disjoint, and together they
/// cover every grid row.
pub proof fn lemma_partition_exact_cover(p: BandPartition, cfg: DesignConfig, den: int, m: int)
    requires
        p.partitions(cfg, den, m),
    ensures
        p.pass.len_spec() + p.trans.len_spec() + p.stop.len_spec() == m,
        forall|i: int| !(p.pass.contains(i) && p.trans.contains(i)),
        forall|i: int| !(p.pass.contains(i) && p.stop.contains(i)),
        forall|i: int| !(p.trans.contains(i) && p.stop.contains(i)),
        forall|i: int|
            0 <= i < m ==> (p.pass.contains(i) || p.trans.contains(i) || p.stop.contains(i)),
{
}

/// Partitioning is deterministic: two partitions of the same grid under the
/// same configuration are equal.
pub proof fn lemma_partition_unique(
    p1: BandPartition,
    p2: BandPartition,
    cfg: DesignConfig,
    den: int,
    m: int,
)
    requires
        p1.partitions(cfg, den, m),
        p2.partitions(cfg, den, m),
    ensures
        p1 == p2,
{
    assert(p1.pass.end == p2.pass.end) by {
        if p1.pass.end < p2.pass.end {
            assert(p2.pass.contains(p1.pass.end as int));
            assert(p1.pass.contains(p1.pass.end as int));
        }
        if p2.pass.end < p1.pass.end {
            assert(p1.pass.contains(p2.pass.end as int));
            assert(p2.pass.contains(p2.pass.end as int));
        }
    }
    assert(p1.stop.start == p2.stop.start) by {
        if p1.stop.start < p2.stop.start {
            assert(p1.stop.contains(p1.stop.start as int));
            assert(p2.stop.contains(p1.stop.start as int));
        }
        if p2.stop.start < p1.stop.start {
            assert(p2.stop.contains(p2.stop.start as int));
            assert(p1.stop.contains(p2.stop.start as int));
        }
    }
}

} // verus!
