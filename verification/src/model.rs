//! The SIRS model: parameters, state, samples, errors, and the
//! right-hand side of the ordinary differential equation system.
use vstd::prelude::*;
use vstd::arithmetic::div_mod::lemma_div_pos_is_pos;
use crate::fixed::ONE;
use crate::fixed::fmul;
use crate::fixed::fmul_spec;
use crate::fixed::iabs;
use crate::fixed::lemma_mul_bound;
use crate::fixed::lemma_trunc_div_bound;
use crate::fixed::tdiv;
use crate::fixed::trunc_div;

verus! {

/// Largest admissible rate parameter (one hundred per day).
pub const PLIM: i128 = 100_000_000_000_000;

/// Largest state magnitude the solver tracks; fractions beyond ten in
/// magnitude count as a numerical blow-up.
pub const YLIM: i128 = 10_000_000_000_000;

/// Largest admissible simulation horizon (one million days).
pub const DLIM: i128 = 1_000_000_000_000_000_000;

/// Bound on each component of a derivative evaluated within range.
pub const KLIM: i128 = 40_000_000_000_000_000;

/// Why a simulation request was not answered with a trajectory.
#[derive(Clone, Copy, PartialEq, Eq, Structural, Debug)]
pub enum SirsError {
    /// An input was outside the documented domain.
    InvalidParameters,
    /// The step-size control could not satisfy the error tolerance, or a
    /// state left the representable range.
    IntegrationFailure,
}

/// The three rates of the SIRS equations, as fixed-point values.
#[derive(Clone, Copy, PartialEq, Eq, Structural, Debug)]
pub struct ModelParams {
    /// Recovery rate.
    pub gamma: i128,
    /// Infection rate, derived from the basic reproduction number.
    pub beta: i128,
    /// Rate of immunity loss.
    pub xi: i128,
}

impl ModelParams {
    /// All rates are nonnegative and small enough for the solver's
    /// arithmetic to stay within 128 bits.
    pub open spec fn wf(self) -> bool {
        &&& 0 <= self.gamma <= PLIM
        &&& 0 <= self.beta <= PLIM
        &&& 0 <= self.xi <= PLIM
    }

    /// Builds a parameter set from already-derived rates, refusing any rate
    /// outside `[0, PLIM]`.
    pub fn new(gamma: i128, beta: i128, xi: i128) -> (r: Option<ModelParams>)
        ensures
            match r {
                Some(p) => p.gamma == gamma && p.beta == beta && p.xi == xi && p.wf(),
                None => !(0 <= gamma <= PLIM && 0 <= beta <= PLIM && 0 <= xi <= PLIM),
            },
    {
        if 0 <= gamma && gamma <= PLIM && 0 <= beta && beta <= PLIM && 0 <= xi && xi <= PLIM {
            Some(ModelParams { gamma, beta, xi })
        } else {
            None
        }
    }
}

/// The user-facing inputs that the solver accepts: positive rates within
/// range, whose derived infection and immunity-loss rates are in range too.
pub open spec fn params_inputs_valid(r0: int, gamma: int, immunity_duration: int) -> bool {
    &&& 0 < r0 <= PLIM
    &&& 0 < gamma <= PLIM
    &&& 0 < immunity_duration
    &&& fmul_spec(r0, gamma) <= PLIM
    &&& trunc_div((ONE as int) * (ONE as int), immunity_duration) <= PLIM
}

/// Derives the model rates from the basic reproduction number, the recovery
/// rate and the mean immunity duration: `beta = r0 * gamma` and
/// `xi = 1 / immunity_duration`, both in fixed point.
pub fn derive_params(r0: i128, gamma: i128, immunity_duration: i128) -> (res: Result<
    ModelParams,
    SirsError,
>)
    ensures
        match res {
            Ok(p) => {
                &&& params_inputs_valid(r0 as int, gamma as int, immunity_duration as int)
                &&& p.gamma == gamma
                &&& p.beta as int == fmul_spec(r0 as int, gamma as int)
                &&& p.xi as int == trunc_div((ONE as int) * (ONE as int), immunity_duration as int)
                &&& p.wf()
            },
            Err(e) => {
                &&& e == SirsError::InvalidParameters
                &&& !params_inputs_valid(r0 as int, gamma as int, immunity_duration as int)
            },
        },
{
    if r0 <= 0 || r0 > PLIM || gamma <= 0 || gamma > PLIM || immunity_duration <= 0 {
        return Err(SirsError::InvalidParameters);
    }
    proof {
        lemma_mul_bound(r0 as int, gamma as int, PLIM as int, PLIM as int);
        assert((r0 as int) * (gamma as int) >= 0) by (nonlinear_arith)
            requires
                r0 > 0,
                gamma > 0,
        ;
        lemma_div_pos_is_pos((r0 as int) * (gamma as int), ONE as int);
    }
    let beta = fmul(r0, gamma);
    let sq: i128 = ONE * ONE;
    proof {
        lemma_div_pos_is_pos(sq as int, immunity_duration as int);
    }
    let xi = tdiv(sq, immunity_duration);
    if beta > PLIM || xi > PLIM {
        return Err(SirsError::InvalidParameters);
    }
    Ok(ModelParams { gamma, beta, xi })
}

/// The three compartment fractions at one instant.
#[derive(Clone, Copy, PartialEq, Eq, Structural, Debug)]
pub struct State {
    /// Susceptible fraction.
    pub s: i128,
    /// Infected fraction.
    pub i: i128,
    /// Recovered fraction.
    pub r: i128,
}

impl State {
    /// Each component is within the magnitude the solver tracks.
    pub open spec fn in_range(self) -> bool {
        &&& iabs(self.s as int) <= YLIM
        &&& iabs(self.i as int) <= YLIM
        &&& iabs(self.r as int) <= YLIM
    }

    /// Total population across the three compartments.
    pub open spec fn total(self) -> int {
        self.s + self.i + self.r
    }
}

/// One entry of a trajectory: a time and the state reached at it.
#[derive(Clone, Copy, PartialEq, Eq, Structural, Debug)]
pub struct Sample {
    /// Time of the sample.
    pub t: i128,
    /// Susceptible fraction.
    pub s: i128,
    /// Infected fraction.
    pub i: i128,
    /// Recovered fraction.
    pub r: i128,
}

/// Total population recorded in a sample.
pub open spec fn sample_total(x: Sample) -> int {
    x.s + x.i + x.r
}

/// New infections per unit time: `beta * s * i`, evaluated in fixed point.
pub open spec fn spec_infection(p: ModelParams, s: int, i: int) -> int {
    fmul_spec(fmul_spec(p.beta as int, s), i)
}

/// Recoveries per unit time: `gamma * i`.
pub open spec fn spec_recovery(p: ModelParams, i: int) -> int {
    fmul_spec(p.gamma as int, i)
}

/// Losses of immunity per unit time: `xi * r`.
pub open spec fn spec_waning(p: ModelParams, r: int) -> int {
    fmul_spec(p.xi as int, r)
}

/// The SIRS vector field. The three components are built from the same
/// three flows, so they sum to zero exactly.
pub open spec fn spec_system(p: ModelParams, y: (int, int, int)) -> (int, int, int) {
    let inf = spec_infection(p, y.0, y.1);
    let rec = spec_recovery(p, y.1);
    let wan = spec_waning(p, y.2);
    (wan - inf, inf - rec, rec - wan)
}

/// Law: with a zero infection rate the infected compartment cannot grow:
/// its derivative is never positive while the infected fraction is
/// nonnegative, so the infected fraction is driven monotonically toward
/// zero.
pub proof fn lemma_zero_beta_infected_declines(p: ModelParams, y: (int, int, int))
    requires
        p.wf(),
        p.beta == 0,
        0 <= y.1,
    ensures
        spec_system(p, y).1 <= 0,
{
    lemma_zero_product_fmul(y.0);
    lemma_zero_product_fmul(y.1);
    assert((p.gamma as int) * y.1 >= 0) by (nonlinear_arith)
        requires
            p.gamma >= 0,
            y.1 >= 0,
    ;
    lemma_div_pos_is_pos((p.gamma as int) * y.1, ONE as int);
}

/// A fixed-point product with a zero factor is zero.
proof fn lemma_zero_product_fmul(x: int)
    ensures
        fmul_spec(0, x) == 0,
{
    assert(0 * x == 0) by (nonlinear_arith);
    lemma_trunc_div_bound(0, ONE as int);
}

/// Law: a state whose three flows balance exactly is stationary: the
/// vector field vanishes where infections, recoveries and immunity losses
/// are all equal, which is the fixed-point equation the endemic
/// equilibrium satisfies.
pub proof fn lemma_balanced_flows_are_stationary(p: ModelParams, y: (int, int, int))
    requires
        spec_infection(p, y.0, y.1) == spec_recovery(p, y.1),
        spec_recovery(p, y.1) == spec_waning(p, y.2),
    ensures
        spec_system(p, y) == (0int, 0int, 0int),
{
}

/// The SIRS system bound to one parameter set.
pub struct SIRS {
    /// The rates the vector field is evaluated with.
    pub params: ModelParams,
}

impl SIRS {
    /// Wraps a parameter set.
    pub fn new(params: ModelParams) -> (m: SIRS)
        ensures
            m.params == params,
    {
        SIRS { params }
    }

    /// Evaluates the right-hand side of the SIRS equations at `y`.
    ///
    /// The result equals the fixed-point vector field exactly, its
    /// components sum to zero exactly, and each is bounded by `KLIM`.
    pub fn system(&self, y: &State) -> (dy: State)
        requires
            self.params.wf(),
            y.in_range(),
        ensures
            (dy.s as int, dy.i as int, dy.r as int) == spec_system(
                self.params,
                (y.s as int, y.i as int, y.r as int),
            ),
            dy.s as int + dy.i as int + dy.r as int == 0,
            iabs(dy.s as int) <= KLIM,
            iabs(dy.i as int) <= KLIM,
            iabs(dy.r as int) <= KLIM,
    {
        proof {
            lemma_mul_bound(self.params.beta as int, y.s as int, PLIM as int, YLIM as int);
        }
        let bs = fmul(self.params.beta, y.s);
        proof {
            assert(iabs(bs as int) <= 2_000_000_000_000_000);
            lemma_mul_bound(bs as int, y.i as int, 2_000_000_000_000_000, YLIM as int);
        }
        let inf = fmul(bs, y.i);
        proof {
            assert(iabs(inf as int) <= 30_000_000_000_000_000);
            lemma_mul_bound(self.params.gamma as int, y.i as int, PLIM as int, YLIM as int);
        }
        let rec = fmul(self.params.gamma, y.i);
        proof {
            assert(iabs(rec as int) <= 2_000_000_000_000_000);
            lemma_mul_bound(self.params.xi as int, y.r as int, PLIM as int, YLIM as int);
        }
        let wan = fmul(self.params.xi, y.r);
        proof {
            assert(iabs(wan as int) <= 2_000_000_000_000_000);
        }
        State { s: wan - inf, i: inf - rec, r: rec - wan }
    }
}

} // verus!
