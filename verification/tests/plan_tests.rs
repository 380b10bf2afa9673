use fir_lowpass::config::DesignConfig;
use fir_lowpass::config::default_lowpass;
use fir_lowpass::errors::DesignError;
use fir_lowpass::plan::create_lowpass_plan;
use fir_lowpass::plan::plan_lowpass_case;

#[test]
fn grid_length_is_fifteen_n() {
    for n in [1usize, 2, 3, 6, 10] {
        let p = create_lowpass_plan(n).unwrap();
        assert_eq!(p.grid.num.len(), 15 * n);
        assert_eq!(p.grid.den, 15 * n - 1);
    }
}

#[test]
fn grid_is_increasing_with_exact_endpoints() {
    let p = create_lowpass_plan(4).unwrap();
    let g = &p.grid;
    assert_eq!(g.num[0], 0);
    assert_eq!(g.num[g.num.len() - 1], g.den);
    for i in 1..g.num.len() {
        assert!(g.num[i - 1] < g.num[i]);
    }
}

#[test]
fn grid_endpoints_in_floating_point() {
    let p = create_lowpass_plan(6).unwrap();
    let g = &p.grid;
    let w: Vec<f64> = g
        .num
        .iter()
        .map(|&k| std::f64::consts::PI * k as f64 / g.den as f64)
        .collect();
    assert_eq!(w[0], 0.0);
    assert!((w[w.len() - 1] - std::f64::consts::PI).abs() < 1e-12);
    for i in 1..w.len() {
        assert!(w[i - 1] < w[i]);
    }
}

#[test]
fn band_counts_sum_to_grid_length() {
    for n in 1usize..9 {
        let p = create_lowpass_plan(n).unwrap();
        let b = &p.bands;
        assert_eq!(b.pass.len() + b.trans.len() + b.stop.len(), 15 * n);
        assert_eq!(b.pass.start, 0);
        assert_eq!(b.pass.end, b.trans.start);
        assert_eq!(b.trans.end, b.stop.start);
        assert_eq!(b.stop.end, 15 * n);
    }
}

#[test]
fn band_boundaries_for_smallest_length() {
    let p = create_lowpass_plan(1).unwrap();
    let b = &p.bands;
    assert_eq!(b.pass.len(), 2);
    assert_eq!(b.trans.len(), 1);
    assert_eq!(b.stop.len(), 12);
}

#[test]
fn band_boundaries_for_length_six() {
    let p = create_lowpass_plan(6).unwrap();
    let b = &p.bands;
    assert_eq!(b.pass.end, 11);
    assert_eq!(b.stop.start, 18);
    assert_eq!(b.pass.len(), 11);
    assert_eq!(b.trans.len(), 7);
    assert_eq!(b.stop.len(), 72);
}

#[test]
fn transition_block_may_be_empty() {
    let mut cfg = default_lowpass(1);
    cfg.wpass_num = 19;
    let p = plan_lowpass_case(&cfg).unwrap();
    assert!(p.bands.trans.is_empty());
    assert_eq!(p.bands.trans.len(), 0);
    assert_eq!(p.bands.pass.len() + p.bands.stop.len(), 15);
    assert!(p.bands.pass.len() >= 1);
    assert!(p.bands.stop.len() >= 1);
}

#[test]
fn system_shape_counts() {
    for n in [1usize, 6] {
        let p = create_lowpass_plan(n).unwrap();
        assert_eq!(p.shape.cols, n);
        assert_eq!(p.shape.rows, 2 * 15 * n);
    }
}

#[test]
fn planning_is_deterministic() {
    let p1 = create_lowpass_plan(6).unwrap();
    let p2 = create_lowpass_plan(6).unwrap();
    assert_eq!(p1.config, p2.config);
    assert_eq!(p1.grid.num, p2.grid.num);
    assert_eq!(p1.grid.den, p2.grid.den);
    assert_eq!(p1.bands, p2.bands);
    assert_eq!(p1.shape, p2.shape);
}

#[test]
fn zero_length_is_invalid() {
    assert_eq!(
        create_lowpass_plan(0).unwrap_err(),
        DesignError::InvalidConfiguration
    );
}

#[test]
fn zero_stopband_ripple_is_invalid() {
    let mut cfg = default_lowpass(3);
    cfg.delta_stop_num = 0;
    assert_eq!(cfg.validate(), Err(DesignError::InvalidConfiguration));
    assert_eq!(
        plan_lowpass_case(&cfg).unwrap_err(),
        DesignError::InvalidConfiguration
    );
}

#[test]
fn negative_stopband_ripple_is_invalid() {
    let mut cfg = default_lowpass(3);
    cfg.delta_stop_num = -5;
    assert_eq!(cfg.validate(), Err(DesignError::InvalidConfiguration));
}

#[test]
fn passband_ripple_at_minus_one_is_invalid() {
    let mut cfg = default_lowpass(3);
    cfg.delta_pass_num = -cfg.delta_pass_den;
    assert_eq!(cfg.validate(), Err(DesignError::InvalidConfiguration));
}

#[test]
fn unordered_band_edges_are_invalid() {
    let mut cfg = default_lowpass(3);
    cfg.wpass_num = 20;
    assert_eq!(cfg.validate(), Err(DesignError::InvalidConfiguration));
}

#[test]
fn default_configuration_is_valid() {
    let cfg = default_lowpass(1);
    assert!(cfg.validate().is_ok());
    assert_eq!(cfg.max_iter, 1000);
    let also = DesignConfig { n: 2, ..default_lowpass(1) };
    assert!(also.validate().is_ok());
}
