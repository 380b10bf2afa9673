use vstd::prelude::*;

use crate::errors::DesignError;

verus! {

/// Default passband edge, as the fraction 12/100 of pi.
pub const DEFAULT_WPASS_NUM: usize = 12;

pub const DEFAULT_WPASS_DEN: usize = 100;

/// Default stopband edge, as the fraction 20/100 of pi.
pub const DEFAULT_WSTOP_NUM: usize = 20;

pub const DEFAULT_WSTOP_DEN: usize = 100;

/// Default linear passband ripple, 25/1000.
pub const DEFAULT_DELTA_PASS_NUM: i64 = 25;

pub const DEFAULT_DELTA_PASS_DEN: i64 = 1000;

/// Default linear stopband ripple, 125/1000.
pub const DEFAULT_DELTA_STOP_NUM: i64 = 125;

pub const DEFAULT_DELTA_STOP_DEN: i64 = 1000;

/// Default iteration cap of the feasibility iteration.
pub const DEFAULT_MAX_ITER: usize = 1000;

/// Default residual tolerance, 1/1000000.
pub const DEFAULT_TOL_NUM: u64 = 1;

pub const DEFAULT_TOL_DEN: u64 = 1000000;

/// Configuration of one lowpass feasibility case.
///
/// Band edges and the residual tolerance are rationals (`num/den`); the two
/// band edges are fractions of pi. The ripple values are signed rationals so
/// that a non-positive ripple — which would feed a non-positive logarithm
/// when the decibel bounds are evaluated — can be written down and rejected.
#[derive(Clone, Copy, Debug, PartialEq, Eq, Structural)]
pub struct DesignConfig {
    /// Filter length: the number of coefficient columns of the design matrix.
    pub n: usize,
    /// Passband edge as the fraction `wpass_num/wpass_den` of pi.
    pub wpass_num: usize,
    pub wpass_den: usize,
    /// Stopband edge as the fraction `wstop_num/wstop_den` of pi.
    pub wstop_num: usize,
    pub wstop_den: usize,
    /// Linear passband ripple `delta_pass_num/delta_pass_den`.
    pub delta_pass_num: i64,
    pub delta_pass_den: i64,
    /// Linear stopband ripple `delta_stop_num/delta_stop_den`.
    pub delta_stop_num: i64,
    pub delta_stop_den: i64,
    /// Hard cap on the number of iterations of the feasibility iteration.
    pub max_iter: usize,
    /// Residual convergence tolerance `tol_num/tol_den`.
    pub tol_num: u64,
    pub tol_den: u64,
}

impl DesignConfig {
    /// A configuration is valid when the filter length is positive, every
    /// denominator is positive, the band edges satisfy
    /// 0 <= wpass < wstop <= pi, the passband ripple keeps 1 + delta
    /// positive, the stopband ripple is positive, the iteration cap is
    /// positive and the tolerance is positive.
    pub open spec fn valid(self) -> bool {
        &&& self.n >= 1
        &&& self.wpass_den >= 1
        &&& self.wstop_den >= 1
        &&& self.wpass_num * self.wstop_den < self.wstop_num * self.wpass_den
        &&& self.wstop_num <= self.wstop_den
        &&& self.delta_pass_den >= 1
        &&& self.delta_stop_den >= 1
        &&& self.delta_pass_num + self.delta_pass_den >= 1
        &&& self.delta_stop_num >= 1
        &&& self.max_iter >= 1
        &&& self.tol_den >= 1
        &&& self.tol_num >= 1
    }

    /// Checks `valid`; on failure the reported kind is `InvalidConfiguration`.
    pub fn validate(&self) -> (r: Result<(), DesignError>)
        ensures
            r is Ok <==> self.valid(),
            !self.valid() ==> r == Err::<(), DesignError>(DesignError::InvalidConfiguration),
    {
        proof {
            assert((self.wpass_num as u128) * (self.wstop_den as u128) <= u128::MAX
                && (self.wstop_num as u128) * (self.wpass_den as u128) <= u128::MAX)
                by (nonlinear_arith)
                requires
                    self.wpass_num <= u64::MAX,
                    self.wstop_den <= u64::MAX,
                    self.wstop_num <= u64::MAX,
                    self.wpass_den <= u64::MAX,
            ;
        }
        let edges_ordered = (self.wpass_num as u128) * (self.wstop_den as u128)
            < (self.wstop_num as u128) * (self.wpass_den as u128);
        let ok = self.n >= 1 && self.wpass_den >= 1 && self.wstop_den >= 1 && edges_ordered
            && self.wstop_num <= self.wstop_den && self.delta_pass_den >= 1
            && self.delta_stop_den >= 1
            && (self.delta_pass_num as i128) + (self.delta_pass_den as i128) >= 1
            && self.delta_stop_num >= 1 && self.max_iter >= 1 && self.tol_den >= 1
            && self.tol_num >= 1;
        if ok {
            Ok(())
        } else {
            Err(DesignError::InvalidConfiguration)
        }
    }
}

/// The fixed configuration of the standard lowpass case of length `n`:
/// band edges 0.12 pi and 0.20 pi, ripples 0.025 and 0.125, iteration cap
/// 1000, tolerance 1/1000000.
pub open spec fn default_lowpass_spec(n: usize) -> DesignConfig {
    DesignConfig {
        n,
        wpass_num: DEFAULT_WPASS_NUM,
        wpass_den: DEFAULT_WPASS_DEN,
        wstop_num: DEFAULT_WSTOP_NUM,
        wstop_den: DEFAULT_WSTOP_DEN,
        delta_pass_num: DEFAULT_DELTA_PASS_NUM,
        delta_pass_den: DEFAULT_DELTA_PASS_DEN,
        delta_stop_num: DEFAULT_DELTA_STOP_NUM,
        delta_stop_den: DEFAULT_DELTA_STOP_DEN,
        max_iter: DEFAULT_MAX_ITER,
        tol_num: DEFAULT_TOL_NUM,
        tol_den: DEFAULT_TOL_DEN,
    }
}

/// Builds the standard lowpass configuration for filter length `n`.
pub fn default_lowpass(n: usize) -> (c: DesignConfig)
    ensures
        c == default_lowpass_spec(n),
{
    DesignConfig {
        n,
        wpass_num: DEFAULT_WPASS_NUM,
        wpass_den: DEFAULT_WPASS_DEN,
        wstop_num: DEFAULT_WSTOP_NUM,
        wstop_den: DEFAULT_WSTOP_DEN,
        delta_pass_num: DEFAULT_DELTA_PASS_NUM,
        delta_pass_den: DEFAULT_DELTA_PASS_DEN,
        delta_stop_num: DEFAULT_DELTA_STOP_NUM,
        delta_stop_den: DEFAULT_DELTA_STOP_DEN,
        max_iter: DEFAULT_MAX_ITER,
        tol_num: DEFAULT_TOL_NUM,
        tol_den: DEFAULT_TOL_DEN,
    }
}

} // verus!
