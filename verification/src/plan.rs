use vstd::prelude::*;

use crate::config::DesignConfig;
use crate::config::default_lowpass;
use crate::config::default_lowpass_spec;
use crate::errors::DesignError;
use crate::grid::FrequencyGrid;
use crate::grid::sample_frequencies;
use crate::partition::BandPartition;
use crate::partition::split_bands;

verus! {

/// Shape of the stacked constraint system handed to the feasibility
/// iteration: every grid row contributes a sign-paired pair of constraint
/// rows (an upper and a negated lower bound), and there is one column per
/// filter coefficient.
#[derive(Clone, Copy, Debug, PartialEq, Eq, Structural)]
pub struct SystemShape {
    pub rows: usize,
    pub cols: usize,
}

/// The exact plan of one lowpass feasibility case: the configuration it was
/// built from, the sampled frequency grid, the band partition of the grid
/// rows, and the shape of the stacked constraint system. Everything the
/// floating-point evaluation needs that can be stated exactly is fixed here.
#[derive(Debug)]
pub struct CasePlan {
    pub config: DesignConfig,
    pub grid: FrequencyGrid,
    pub bands: BandPartition,
    pub shape: SystemShape,
}

impl CasePlan {
    /// What it means for a plan to be the plan of configuration `cfg`: the
    /// grid holds `15 * n` samples over [0, pi], the bands partition its
    /// rows by the configured thresholds, and the stacked system has two
    /// rows per sample and one column per coefficient.
    pub open spec fn is_plan_for(self, cfg: DesignConfig) -> bool {
        &&& self.config == cfg
        &&& self.grid.wf()
        &&& self.grid.num.len() == 15 * cfg.n
        &&& self.grid.den == 15 * cfg.n - 1
        &&& self.bands.partitions(cfg, self.grid.den as int, self.grid.num.len() as int)
        &&& self.shape.cols == cfg.n
        &&& self.shape.rows == 2 * self.grid.num.len()
    }
}

/// The machine limits under which a plan for `cfg` can be built: the grid
/// length, the doubled row count and the threshold cross-products must fit
/// in `usize`.
pub open spec fn plan_fits(cfg: DesignConfig) -> bool {
    &&& 30 * cfg.n <= usize::MAX
    &&& (15 * cfg.n - 1) * cfg.wpass_den <= usize::MAX
    &&& cfg.wpass_num * (15 * cfg.n - 1) <= usize::MAX
    &&& (15 * cfg.n - 1) * cfg.wstop_den <= usize::MAX
    &&& cfg.wstop_num * (15 * cfg.n - 1) <= usize::MAX
}

/// Plans a lowpass feasibility case: validates the configuration, samples
/// the frequency grid, partitions it into bands and fixes the shape of the
/// stacked system. Returns `InvalidConfiguration` exactly when the
/// configuration is invalid; no matrix work happens in that case.
pub fn plan_lowpass_case(cfg: &DesignConfig) -> (r: Result<CasePlan, DesignError>)
    requires
        cfg.valid() ==> plan_fits(*cfg),
    ensures
        r is Ok <==> cfg.valid(),
        !cfg.valid() ==> (r matches Err(e) && e == DesignError::InvalidConfiguration),
        r matches Ok(p) ==> p.is_plan_for(*cfg),
{
    match cfg.validate() {
        Err(e) => Err(e),
        Ok(()) => {
            let grid = sample_frequencies(cfg.n);
            let bands = split_bands(cfg, &grid);
            let m = grid.len();
            let shape = SystemShape { rows: 2 * m, cols: cfg.n };
            Ok(CasePlan { config: *cfg, grid, bands, shape })
        },
    }
}

/// Plans the standard lowpass case of filter length `n`: band edges 0.12 pi
/// and 0.20 pi, ripples 0.025 and 0.125, iteration cap 1000, tolerance
/// 1/1000000. Rejects `n == 0` as an invalid configuration.
pub fn create_lowpass_plan(n: usize) -> (r: Result<CasePlan, DesignError>)
    requires
        1500 * n <= usize::MAX,
    ensures
        r is Ok <==> n >= 1,
        n == 0 ==> (r matches Err(e) && e == DesignError::InvalidConfiguration),
        r matches Ok(p) ==> p.is_plan_for(default_lowpass_spec(n)),
{
    let cfg = default_lowpass(n);
    plan_lowpass_case(&cfg)
}

/// The planned shape accounts for the stacked system exactly: doubling the
/// three block sizes of the band partition — one sign pair per grid row —
/// gives the planned row count.
pub proof fn lemma_shape_counts_stacked_rows(cfg: DesignConfig, p: CasePlan)
    requires
        p.is_plan_for(cfg),
    ensures
        2 * p.bands.pass.len_spec() + 2 * p.bands.stop.len_spec() + 2 * p.bands.trans.len_spec()
            == p.shape.rows,
{
    crate::partition::lemma_partition_exact_cover(
        p.bands,
        cfg,
        p.grid.den as int,
        p.grid.num.len() as int,
    );
}

/// Planning is deterministic: two plans of the same configuration agree in
/// every part — the grid, the band partition and the system shape.
pub proof fn lemma_plan_deterministic(cfg: DesignConfig, p1: CasePlan, p2: CasePlan)
    requires
        p1.is_plan_for(cfg),
        p2.is_plan_for(cfg),
    ensures
        p1.config == p2.config,
        p1.grid.num@ == p2.grid.num@,
        p1.grid.den == p2.grid.den,
        p1.bands == p2.bands,
        p1.shape == p2.shape,
{
    assert(p1.grid.num@ =~= p2.grid.num@);
    crate::partition::lemma_partition_unique(
        p1.bands,
        p2.bands,
        cfg,
        p1.grid.den as int,
        p1.grid.num.len() as int,
    );
}

} // verus!
