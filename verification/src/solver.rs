//! The adaptive-step integration loop and the user-facing entry point.
use vstd::prelude::*;
use vstd::arithmetic::div_mod::lemma_div_pos_is_pos;
use crate::fixed::ONE;
use crate::fixed::fmul;
use crate::fixed::fmul_spec;
use crate::fixed::iabs;
use crate::fixed::iroot5;
use crate::fixed::iroot5_spec;
use crate::fixed::lemma_mul_bound;
use crate::fixed::lemma_trunc_div_bound;
use crate::fixed::tdiv;
use crate::fixed::trunc_div;
use crate::model::DLIM;
use crate::model::ModelParams;
use crate::model::SIRS;
use crate::model::Sample;
use crate::model::SirsError;
use crate::model::State;
use crate::model::derive_params;
use crate::model::params_inputs_valid;
use crate::model::sample_total;
use crate::rk::H_MAX;
use crate::rk::rk_step;
use crate::rk::s_errnorm;
use crate::rk::s_ynew;
use crate::rk::st3;
use crate::rk::step_blown;

verus! {

/// Initial susceptible fraction: `0.99`.
pub const S_INIT: i128 = 990_000_000_000;

/// Initial infected fraction: `0.01`.
pub const I_INIT: i128 = 10_000_000_000;

/// Initial step size: `0.1` days.
pub const H_INIT: i128 = 100_000_000_000;

/// Smallest step size the controller may propose; a shrink below this
/// reports a failure of the error control.
pub const H_MIN: i128 = 1_000;

/// Smallest factor a step may shrink by: `0.2`.
pub const FAC_MIN: i128 = 200_000_000_000;

/// Largest factor a step may grow by: `5.0`.
pub const FAC_MAX: i128 = 5_000_000_000_000;

/// `0.9^5 * 10^15 * ONE`: the safety margin raised to the fifth power, in
/// the scale the fifth-root step controller works in.
pub const FACT_NUM: i128 = 590_490_000_000_000_000_000_000_000;

/// Largest number of accepted steps in one integration.
pub const MAX_STEPS: usize = 150_000;

/// Largest number of loop turns (accepted or rejected) in one integration.
pub const FUEL: u64 = 1_000_000;

/// Two consecutive samples are one accepted Dormand-Prince step apart: the
/// later state is exactly the fifth-order update of the earlier one over
/// the time difference, and the step's error norm was within tolerance.
pub open spec fn step_linked(p: ModelParams, a: Sample, b: Sample) -> bool {
    let h = b.t - a.t;
    &&& 0 < h <= H_MAX
    &&& (b.s as int, b.i as int, b.r as int) == s_ynew(p, (a.s as int, a.i as int, a.r as int), h)
    &&& s_errnorm(p, (a.s as int, a.i as int, a.r as int), h) <= ONE
}

/// What a successful integration returns: a trajectory that starts at time
/// zero in the fixed initial state, advances strictly in time through
/// accepted Dormand-Prince steps, ends exactly at the requested duration,
/// and keeps the total population within six units per accepted step.
pub open spec fn trajectory_ok(p: ModelParams, tr: Seq<Sample>, duration: int) -> bool {
    &&& 2 <= tr.len() <= MAX_STEPS + 1
    &&& tr[0].t == 0
    &&& tr[0].s == S_INIT
    &&& tr[0].i == I_INIT
    &&& tr[0].r == 0
    &&& tr[tr.len() - 1].t == duration
    &&& forall|n: int| 0 <= n < tr.len() - 1 ==> (#[trigger] tr[n]).t < tr[n + 1].t
    &&& forall|n: int| 0 <= n < tr.len() ==> iabs(#[trigger] sample_total(tr[n]) - ONE) <= 6 * n
    &&& forall|n: int| 0 <= n < tr.len() - 1 ==> step_linked(p, #[trigger] tr[n], tr[n + 1])
}

/// The step-size factor `0.9 * errnorm^(-1/5)`, clamped to
/// `[FAC_MIN, FAC_MAX]`, as an integer fifth root computes it.
pub open spec fn spec_step_factor(en: int) -> int {
    if en == 0 {
        FAC_MAX as int
    } else {
        let f = iroot5_spec(trunc_div(FACT_NUM as int, en)) * 1_000_000_000;
        if f < FAC_MIN {
            FAC_MIN as int
        } else if f > FAC_MAX {
            FAC_MAX as int
        } else {
            f
        }
    }
}

/// The step-size factor `0.9 * errnorm^(-1/5)`, clamped to
/// `[FAC_MIN, FAC_MAX]`, computed with an integer fifth root.
fn step_factor(en: i128) -> (f: i128)
    requires
        0 <= en,
    ensures
        FAC_MIN <= f <= FAC_MAX,
        f as int == spec_step_factor(en as int),
{
    if en == 0 {
        FAC_MAX
    } else {
        proof {
            lemma_trunc_div_bound(FACT_NUM as int, en as int);
            lemma_div_pos_is_pos(FACT_NUM as int, en as int);
        }
        let tt = tdiv(FACT_NUM, en);
        let f3 = iroot5(tt);
        let f = f3 * 1_000_000_000;
        if f < FAC_MIN {
            FAC_MIN
        } else if f > FAC_MAX {
            FAC_MAX
        } else {
            f
        }
    }
}

/// The first sample of every trajectory: the fixed initial state at time
/// zero.
pub open spec fn spec_first() -> Sample {
    Sample { t: 0, s: S_INIT, i: I_INIT, r: 0 }
}

/// The initial step size: `H_INIT`, clipped to the simulation horizon.
pub open spec fn spec_h0(duration: int) -> int {
    if duration < H_INIT {
        duration
    } else {
        H_INIT as int
    }
}

/// The integration loop, mirrored exactly: from state `y` at time `t`
/// with proposed step `h`, having already recorded `len` samples and with
/// `fuel` loop turns left, the samples still to be recorded up to
/// `duration` — or `None` where the loop reports a failure.
pub open spec fn spec_run(
    p: ModelParams,
    y: (int, int, int),
    t: int,
    h: int,
    len: int,
    fuel: int,
    duration: int,
) -> Option<Seq<Sample>>
    decreases fuel,
{
    if t >= duration {
        Some(Seq::empty())
    } else if fuel <= 0 {
        None
    } else if step_blown(p, y, h) {
        let nh0 = fmul_spec(h, FAC_MIN as int);
        if nh0 < H_MIN {
            None
        } else {
            let nh1 = if nh0 > H_MAX {
                H_MAX as int
            } else {
                nh0
            };
            let nh = if nh1 > duration - t {
                duration - t
            } else {
                nh1
            };
            spec_run(p, y, t, nh, len, fuel - 1, duration)
        }
    } else {
        let yn = s_ynew(p, y, h);
        let en = s_errnorm(p, y, h);
        if en <= ONE {
            if len > MAX_STEPS {
                None
            } else {
                let tn = t + h;
                let smp = Sample { t: tn as i128, s: yn.0 as i128, i: yn.1 as i128, r: yn.2 as i128 };
                let fac = spec_step_factor(en);
                let nh0 = fmul_spec(h, fac);
                let nh1 = if nh0 < H_MIN {
                    H_MIN as int
                } else {
                    nh0
                };
                let nh2 = if nh1 > H_MAX {
                    H_MAX as int
                } else {
                    nh1
                };
                let nh = if nh2 > duration - tn {
                    duration - tn
                } else {
                    nh2
                };
                match spec_run(p, yn, tn, nh, len + 1, fuel - 1, duration) {
                    Some(rest) => Some(seq![smp] + rest),
                    None => None,
                }
            }
        } else {
            let fac = spec_step_factor(en);
            let nh0 = fmul_spec(h, fac);
            if nh0 < H_MIN {
                None
            } else {
                let nh1 = if nh0 > H_MAX {
                    H_MAX as int
                } else {
                    nh0
                };
                let nh = if nh1 > duration - t {
                    duration - t
                } else {
                    nh1
                };
                spec_run(p, y, t, nh, len, fuel - 1, duration)
            }
        }
    }
}

/// The loop mirror applied to the loop's starting point.
pub open spec fn spec_whole_run(p: ModelParams, duration: int) -> Option<Seq<Sample>> {
    spec_run(p, (S_INIT as int, I_INIT as int, 0), 0, spec_h0(duration), 1, FUEL as int, duration)
}

/// The samples recorded so far, together with what the loop mirror still
/// yields from the current loop state, make up exactly what the whole
/// mirrored run yields — and the two fail together.
pub open spec fn run_matches(
    p: ModelParams,
    y: State,
    t: int,
    h: int,
    tr: Seq<Sample>,
    fuel: int,
    duration: int,
) -> bool {
    match spec_run(p, st3(y), t, h, tr.len() as int, fuel, duration) {
        Some(rest) => match spec_whole_run(p, duration) {
            Some(full) => seq![spec_first()] + full == tr + rest,
            None => false,
        },
        None => spec_whole_run(p, duration) is None,
    }
}

/// Integrates the SIRS system from the fixed initial state
/// `(0.99, 0.01, 0)` at time zero up to exactly `duration`, with adaptive
/// Dormand-Prince steps held to the `10^-5` error tolerances.
///
/// On success the trajectory satisfies `trajectory_ok`; the integration
/// fails only when the step-size control underflows `H_MIN`, the step or
/// turn budget is exhausted, or a state leaves the tracked range.
#[verifier::rlimit(100)]
pub fn integrate(params: &ModelParams, duration: i128) -> (res: Result<Vec<Sample>, SirsError>)
    requires
        params.wf(),
        0 < duration <= DLIM,
    ensures
        match res {
            Ok(tr) => trajectory_ok(*params, tr@, duration as int),
            Err(e) => e == SirsError::IntegrationFailure,
        },
        (match spec_whole_run(*params, duration as int) {
            Some(full) => res matches Ok(tr) && tr@ == seq![spec_first()] + full,
            None => res is Err,
        }),
{
    let sys = SIRS::new(*params);
    let mut samples: Vec<Sample> = Vec::new();
    samples.push(Sample { t: 0, s: S_INIT, i: I_INIT, r: 0 });
    let mut y = State { s: S_INIT, i: I_INIT, r: 0 };
    let mut t: i128 = 0;
    let mut h: i128 = if duration < H_INIT {
        duration
    } else {
        H_INIT
    };
    let mut fuel: u64 = FUEL;
    proof {
        assert(samples@ =~= seq![spec_first()]);
    }
    while t < duration
        invariant
            run_matches(*params, y, t as int, h as int, samples@, fuel as int, duration as int),
            sys.params == *params,
            params.wf(),
            0 <= t <= duration,
            duration <= DLIM,
            t < duration ==> 0 < h <= H_MAX && h <= duration - t,
            y.in_range(),
            1 <= samples@.len() <= MAX_STEPS + 1,
            samples@[0] == (Sample { t: 0, s: S_INIT, i: I_INIT, r: 0 }),
            samples@[samples@.len() - 1].t == t,
            samples@[samples@.len() - 1].s == y.s,
            samples@[samples@.len() - 1].i == y.i,
            samples@[samples@.len() - 1].r == y.r,
            forall|n: int|
                0 <= n < samples@.len() - 1 ==> (#[trigger] samples@[n]).t < samples@[n + 1].t,
            forall|n: int|
                0 <= n < samples@.len() ==> iabs(#[trigger] sample_total(samples@[n]) - ONE) <= 6
                    * n,
            forall|n: int|
                0 <= n < samples@.len() - 1 ==> step_linked(
                    *params,
                    #[trigger] samples@[n],
                    samples@[n + 1],
                ),
        decreases fuel,
    {
        let ghost y0 = y;
        let ghost t0 = t as int;
        let ghost h0 = h as int;
        let ghost pre0 = samples@;
        let ghost fuel0 = fuel as int;
        if fuel == 0 {
            proof {
                assert(spec_run(*params, st3(y0), t0, h0, pre0.len() as int, fuel0,
                    duration as int) is None);
            }
            return Err(SirsError::IntegrationFailure);
        }
        fuel = fuel - 1;
        match rk_step(&sys, &y, h) {
            Some((yn, en)) => {
                if en <= ONE {
                    if samples.len() > MAX_STEPS {
                        proof {
                            assert(spec_run(*params, st3(y0), t0, h0, pre0.len() as int, fuel0,
                                duration as int) is None);
                        }
                        return Err(SirsError::IntegrationFailure);
                    }
                    let tn = t + h;
                    let ghost pre = samples@;
                    samples.push(Sample { t: tn, s: yn.s, i: yn.i, r: yn.r });
                    proof {
                        let m = pre.len() as int;
                        assert(samples@[m - 1] == pre[m - 1]);
                        assert(step_linked(*params, samples@[m - 1], samples@[m]));
                        assert(sample_total(pre[m - 1]) == y.total());
                        assert(iabs(sample_total(pre[m - 1]) - ONE) <= 6 * (m - 1));
                        assert(sample_total(samples@[m]) == yn.total());
                        assert(iabs(yn.total() - y.total()) <= 6);
                        assert(iabs(sample_total(samples@[m]) - ONE) <= 6 * m);
                    }
                    y = yn;
                    t = tn;
                    let fac = step_factor(en);
                    proof {
                        lemma_mul_bound(h as int, fac as int, H_MAX as int, FAC_MAX as int);
                    }
                    let mut nh = fmul(h, fac);
                    if nh < H_MIN {
                        nh = H_MIN;
                    }
                    if nh > H_MAX {
                        nh = H_MAX;
                    }
                    let rem = duration - t;
                    if nh > rem {
                        nh = rem;
                    }
                    h = nh;
                    proof {
                        let p0 = *params;
                        let d = duration as int;
                        let m = pre0.len() as int;
                        let smp = samples@[m];
                        let r0 = spec_run(p0, st3(y0), t0, h0, m, fuel0, d);
                        let rn = spec_run(p0, st3(y), t as int, h as int, m + 1, fuel as int, d);
                        match rn {
                            Some(rest) => {
                                assert(r0 == Some(seq![smp] + rest));
                                assert(pre0 + (seq![smp] + rest) =~= samples@ + rest);
                            },
                            None => {
                                assert(r0 is None);
                            },
                        }
                    }
                } else {
                    let fac = step_factor(en);
                    proof {
                        lemma_mul_bound(h as int, fac as int, H_MAX as int, FAC_MAX as int);
                    }
                    let mut nh = fmul(h, fac);
                    if nh < H_MIN {
                        proof {
                            assert(spec_run(*params, st3(y0), t0, h0, pre0.len() as int, fuel0,
                                duration as int) is None);
                        }
                        return Err(SirsError::IntegrationFailure);
                    }
                    if nh > H_MAX {
                        nh = H_MAX;
                    }
                    let rem = duration - t;
                    h = if nh > rem {
                        rem
                    } else {
                        nh
                    };
                    proof {
                        assert(spec_run(*params, st3(y0), t0, h0, pre0.len() as int, fuel0,
                            duration as int) == spec_run(*params, st3(y), t as int, h as int,
                            samples@.len() as int, fuel as int, duration as int));
                    }
                }
            },
            None => {
                proof {
                    lemma_mul_bound(h as int, FAC_MIN as int, H_MAX as int, FAC_MIN as int);
                }
                let mut nh = fmul(h, FAC_MIN);
                if nh < H_MIN {
                    proof {
                        assert(spec_run(*params, st3(y0), t0, h0, pre0.len() as int, fuel0,
                            duration as int) is None);
                    }
                    return Err(SirsError::IntegrationFailure);
                }
                if nh > H_MAX {
                    nh = H_MAX;
                }
                let rem = duration - t;
                h = if nh > rem {
                    rem
                } else {
                    nh
                };
                proof {
                    assert(spec_run(*params, st3(y0), t0, h0, pre0.len() as int, fuel0,
                        duration as int) == spec_run(*params, st3(y), t as int, h as int,
                        samples@.len() as int, fuel as int, duration as int));
                }
            },
        }
    }
    proof {
        let p0 = *params;
        let d = duration as int;
        assert(spec_run(p0, st3(y), t as int, h as int, samples@.len() as int, fuel as int, d)
            == Some(Seq::<Sample>::empty()));
        match spec_whole_run(p0, d) {
            Some(full) => {
                assert(samples@ + Seq::<Sample>::empty() =~= samples@);
            },
            None => {
                assert(false);
            },
        }
    }
    Ok(samples)
}

/// The inputs `solve_sirs` accepts: valid model rates and a positive
/// duration within range.
pub open spec fn solve_inputs_valid(r0: int, gamma: int, immunity_duration: int, duration: int) -> bool {
    &&& params_inputs_valid(r0, gamma, immunity_duration)
    &&& 0 < duration <= DLIM
}

/// The rates `solve_sirs` derives from its inputs.
pub open spec fn spec_derived(r0: int, gamma: int, immunity_duration: int) -> ModelParams {
    ModelParams {
        gamma: gamma as i128,
        beta: fmul_spec(r0, gamma) as i128,
        xi: trunc_div((ONE as int) * (ONE as int), immunity_duration) as i128,
    }
}

/// Simulates the SIRS model: derives `beta = r0 * gamma` and
/// `xi = 1 / immunity_duration`, then integrates from `(0.99, 0.01, 0)`
/// over `[0, duration]`.
///
/// Inputs outside the documented domain — a non-positive or out-of-range
/// rate or duration, including a zero immunity duration — are rejected as
/// `InvalidParameters`; a numerical failure of the step-size control is
/// reported as `IntegrationFailure`; otherwise the full trajectory is
/// returned.
pub fn solve_sirs(r0: i128, gamma: i128, immunity_duration: i128, duration: i128) -> (res: Result<
    Vec<Sample>,
    SirsError,
>)
    ensures
        match res {
            Ok(tr) => {
                &&& solve_inputs_valid(
                    r0 as int,
                    gamma as int,
                    immunity_duration as int,
                    duration as int,
                )
                &&& trajectory_ok(
                    spec_derived(r0 as int, gamma as int, immunity_duration as int),
                    tr@,
                    duration as int,
                )
            },
            Err(e) => if solve_inputs_valid(
                r0 as int,
                gamma as int,
                immunity_duration as int,
                duration as int,
            ) {
                e == SirsError::IntegrationFailure
            } else {
                e == SirsError::InvalidParameters
            },
        },
        solve_inputs_valid(r0 as int, gamma as int, immunity_duration as int, duration as int)
            ==> (match spec_whole_run(
            spec_derived(r0 as int, gamma as int, immunity_duration as int),
            duration as int,
        ) {
            Some(full) => res matches Ok(tr) && tr@ == seq![spec_first()] + full,
            None => res is Err,
        }),
{
    let p = match derive_params(r0, gamma, immunity_duration) {
        Ok(p) => p,
        Err(e) => {
            return Err(e);
        },
    };
    if duration <= 0 || duration > DLIM {
        return Err(SirsError::InvalidParameters);
    }
    proof {
        assert(p == spec_derived(r0 as int, gamma as int, immunity_duration as int));
    }
    integrate(&p, duration)
}

/// Law: at every sample of a returned trajectory the total population
/// stays within one millionth of one. The continuous SIRS system conserves
/// the total exactly; the fixed-point solver loses at most six units of
/// `10^-12` per accepted step, and takes at most `MAX_STEPS` steps.
pub proof fn lemma_total_population_conserved(
    p: ModelParams,
    tr: Seq<Sample>,
    duration: int,
    n: int,
)
    requires
        trajectory_ok(p, tr, duration),
        0 <= n < tr.len(),
    ensures
        iabs(sample_total(tr[n]) - ONE) < ONE / 1_000_000,
{
    assert(iabs(sample_total(tr[n]) - ONE) <= 6 * n);
    assert(n <= MAX_STEPS);
}

} // verus!
