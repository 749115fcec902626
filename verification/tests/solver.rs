//! End-to-end tests of the fixed-point SIRS solver.
use sirs::ModelParams;
use sirs::Sample;
use sirs::SirsError;
use sirs::derive_params;
use sirs::fixed::fmul;
use sirs::fixed::iroot5;
use sirs::fixed::tdiv;
use sirs::integrate;
use sirs::solve_sirs;

const ONE: i128 = 1_000_000_000_000;

fn as_f64(v: i128) -> f64 {
    v as f64 / 1e12
}

fn total(s: &Sample) -> i128 {
    s.s + s.i + s.r
}

#[test]
fn first_sample_is_initial_state() {
    let tr = solve_sirs(2_500_000_000_000, 100_000_000_000, 365 * ONE, 200 * ONE).unwrap();
    let first = &tr[0];
    assert_eq!(first.t, 0);
    assert_eq!(first.s, 990_000_000_000);
    assert_eq!(first.i, 10_000_000_000);
    assert_eq!(first.r, 0);
}

#[test]
fn time_strictly_increasing_and_reaches_duration() {
    let duration = 200 * ONE;
    let tr = solve_sirs(2_500_000_000_000, 100_000_000_000, 365 * ONE, duration).unwrap();
    for w in tr.windows(2) {
        assert!(w[0].t < w[1].t);
    }
    assert_eq!(tr.last().unwrap().t, duration);
}

#[test]
fn total_population_conserved() {
    let tr = solve_sirs(2_500_000_000_000, 100_000_000_000, 365 * ONE, 200 * ONE).unwrap();
    for s in &tr {
        assert!((total(s) - ONE).abs() <= 1_000_000, "total {} at t {}", total(s), s.t);
    }
}

#[test]
fn zero_beta_decays_exponentially() {
    // With beta = 0 the infected compartment follows i(t) = 0.01 * exp(-gamma t).
    let gamma = 100_000_000_000;
    let xi = 2_739_726_027;
    let p = ModelParams::new(gamma, 0, xi).unwrap();
    let tr = integrate(&p, 50 * ONE).unwrap();
    for w in tr.windows(2) {
        assert!(w[1].i <= w[0].i + 100, "infected rose at t {}", w[1].t);
    }
    for s in &tr {
        let expected = 0.01 * (-0.1 * as_f64(s.t)).exp();
        assert!(
            (as_f64(s.i) - expected).abs() < 1e-3,
            "i {} vs {} at t {}",
            as_f64(s.i),
            expected,
            as_f64(s.t)
        );
    }
    let last = tr.last().unwrap();
    assert!(last.i < ONE / 10_000);
}

#[test]
fn long_run_approaches_endemic_equilibrium() {
    // r0 = 2.5, gamma = 0.1, immunity 100 days: S* = 0.4,
    // I* = 0.6 / 11, R* = 6.0 / 11.
    let tr = solve_sirs(2_500_000_000_000, 100_000_000_000, 100 * ONE, 20_000 * ONE).unwrap();
    let last = tr.last().unwrap();
    assert!((as_f64(last.s) - 0.4).abs() < 0.01, "s {}", as_f64(last.s));
    assert!((as_f64(last.i) - 0.6 / 11.0).abs() < 0.01, "i {}", as_f64(last.i));
    assert!((as_f64(last.r) - 6.0 / 11.0).abs() < 0.01, "r {}", as_f64(last.r));
}

#[test]
fn zero_immunity_duration_rejected() {
    let res = solve_sirs(2_500_000_000_000, 100_000_000_000, 0, 200 * ONE);
    assert_eq!(res.unwrap_err(), SirsError::InvalidParameters);
}

#[test]
fn invalid_inputs_rejected() {
    let ok_r0 = 2_500_000_000_000;
    let ok_gamma = 100_000_000_000;
    let ok_imm = 365 * ONE;
    let ok_dur = 200 * ONE;
    assert_eq!(solve_sirs(0, ok_gamma, ok_imm, ok_dur).unwrap_err(), SirsError::InvalidParameters);
    assert_eq!(solve_sirs(-ONE, ok_gamma, ok_imm, ok_dur).unwrap_err(), SirsError::InvalidParameters);
    assert_eq!(solve_sirs(ok_r0, 0, ok_imm, ok_dur).unwrap_err(), SirsError::InvalidParameters);
    assert_eq!(solve_sirs(ok_r0, -1, ok_imm, ok_dur).unwrap_err(), SirsError::InvalidParameters);
    assert_eq!(solve_sirs(ok_r0, ok_gamma, -ONE, ok_dur).unwrap_err(), SirsError::InvalidParameters);
    assert_eq!(solve_sirs(ok_r0, ok_gamma, ok_imm, 0).unwrap_err(), SirsError::InvalidParameters);
    assert_eq!(solve_sirs(ok_r0, ok_gamma, ok_imm, -ONE).unwrap_err(), SirsError::InvalidParameters);
}

#[test]
fn stiff_long_run_reports_integration_failure() {
    // Immunity waning at 100 per day forces tiny stable steps; a horizon of
    // a million days then exceeds the step budget.
    let res = solve_sirs(2_500_000_000_000, 100_000_000_000, 10_000_000_000, 1_000_000 * ONE);
    assert_eq!(res.unwrap_err(), SirsError::IntegrationFailure);
}

#[test]
fn epidemic_wave_scenario() {
    // r0 = 2.5, gamma = 0.1, immunity 365 days, duration 200 days: the
    // infected fraction rises to a peak and falls again.
    let tr = solve_sirs(2_500_000_000_000, 100_000_000_000, 365 * ONE, 200 * ONE).unwrap();
    assert!(tr.len() >= 10, "only {} samples", tr.len());
    let mut peak = 0;
    for (n, s) in tr.iter().enumerate() {
        if s.i > tr[peak].i {
            peak = n;
        }
    }
    assert!(peak > 0 && peak < tr.len() - 1, "peak at {}", peak);
    assert!(tr[peak].i > 2 * tr[0].i);
    assert!(tr[tr.len() - 1].i < tr[peak].i / 2);
    for s in &tr {
        assert!((total(s) - ONE).abs() <= 1_000_000);
    }
}

#[test]
fn derive_params_exact_rates() {
    let p = derive_params(2_500_000_000_000, 100_000_000_000, 365 * ONE).unwrap();
    assert_eq!(p.gamma, 100_000_000_000);
    assert_eq!(p.beta, 250_000_000_000);
    assert_eq!(p.xi, 2_739_726_027);
}

#[test]
fn params_builder_rejects_out_of_range() {
    assert!(ModelParams::new(-1, 0, 0).is_none());
    assert!(ModelParams::new(0, 0, 200_000_000_000_000).is_none());
    let p = ModelParams::new(1, 2, 3).unwrap();
    assert_eq!((p.gamma, p.beta, p.xi), (1, 2, 3));
}

#[test]
fn truncating_division_rounds_toward_zero() {
    assert_eq!(tdiv(7, 2), 3);
    assert_eq!(tdiv(-7, 2), -3);
    assert_eq!(tdiv(0, 5), 0);
}

#[test]
fn fixed_multiply_exact() {
    assert_eq!(fmul(3 * ONE, 2 * ONE), 6 * ONE);
    assert_eq!(fmul(ONE / 2, ONE / 2), ONE / 4);
    assert_eq!(fmul(-3 * ONE, 2 * ONE), -6 * ONE);
}

#[test]
fn fifth_root_exact() {
    assert_eq!(iroot5(0), 0);
    assert_eq!(iroot5(3125), 5);
    assert_eq!(iroot5(3124), 4);
    assert_eq!(iroot5(1_000_000_000_000_000), 1000);
}
