//! The sweep schedule of a chain: `burn_in` sweeps, then `draws` rounds of
//! `thinning` sweeps each followed by keeping the state; what a kept draw
//! records; and the rule that a chain closes only with a draw kept.
//!
//! The schedule is a decision from the sweeps made and the draws kept to
//! the next action, so that a driver performing the sweeps asks it at each
//! turn.

use vstd::prelude::*;

use crate::error::{invalid, Error, Field, Reason};
use crate::outcome::Sigma2Mode;
use crate::terms::GeneralParams;

verus! {

/// What a chain does next.
#[derive(Clone, Copy, Debug, PartialEq, Eq, Structural)]
pub enum Action {
    /// One sweep of the sampler.
    Sweep,
    /// Record the current state as a posterior draw.
    Keep,
    /// The schedule is complete.
    Done,
}

/// The sweeps made when the draw numbered `kept` (from 0) is kept.
pub open spec fn sweeps_at_keep(g: GeneralParams, kept: nat) -> int {
    g.burn_in + (kept + 1) * g.thinning
}

/// The sweeps the whole schedule makes.
pub open spec fn total_sweeps(g: GeneralParams) -> int {
    g.burn_in + g.draws * g.thinning
}

/// The next action after `swept` sweeps with `kept` draws kept: sweep up
/// to the next keep's sweep count, keep there, and stop once every draw is
/// kept and the schedule's sweeps are made (burn-in alone when no draw is
/// asked for).
pub open spec fn schedule_action(g: GeneralParams, swept: nat, kept: nat) -> Action {
    if kept < g.draws {
        if swept < sweeps_at_keep(g, kept) {
            Action::Sweep
        } else {
            Action::Keep
        }
    } else if swept < total_sweeps(g) {
        Action::Sweep
    } else {
        Action::Done
    }
}

/// The states a chain run by the schedule from (0, 0) passes through.
pub open spec fn schedule_state(g: GeneralParams, swept: nat, kept: nat) -> bool {
    &&& kept <= g.draws
    &&& kept < g.draws ==> swept <= sweeps_at_keep(g, kept)
    &&& kept == g.draws ==> swept <= total_sweeps(g)
    &&& kept > 0 ==> swept >= g.burn_in + kept * g.thinning
}

/// The next action of the schedule after `swept` sweeps with `kept` draws
/// kept.
pub fn next_action(general: &GeneralParams, swept: usize, kept: usize) -> (r: Action)
    ensures
        r == schedule_action(*general, swept as nat, kept as nat),
{
    let burn_in = general.burn_in as u128;
    let thinning = general.thinning as u128;
    if kept < general.draws {
        let rounds = kept as u128 + 1;
        assert(rounds * thinning <= 0x1_0000_0000_0000_0000 * 0xFFFF_FFFF_FFFF_FFFF)
            by (nonlinear_arith)
            requires
                rounds <= 0x1_0000_0000_0000_0000,
                thinning <= 0xFFFF_FFFF_FFFF_FFFF,
        ;
        let at_keep = burn_in + rounds * thinning;
        if (swept as u128) < at_keep {
            Action::Sweep
        } else {
            Action::Keep
        }
    } else {
        let draws = general.draws as u128;
        assert(draws * thinning <= 0xFFFF_FFFF_FFFF_FFFF * 0xFFFF_FFFF_FFFF_FFFF)
            by (nonlinear_arith)
            requires
                draws <= 0xFFFF_FFFF_FFFF_FFFF,
                thinning <= 0xFFFF_FFFF_FFFF_FFFF,
        ;
        let total = burn_in + draws * thinning;
        if (swept as u128) < total {
            Action::Sweep
        } else {
            Action::Done
        }
    }
}

/// Whether a kept draw records a global sigma^2: exactly when the outcome
/// samples one and no variance ensemble carries the scale instead.
pub fn records_sigma_sq(mode: Sigma2Mode, variance_attached: bool) -> (r: bool)
    ensures
        r == (mode is Sampled && !variance_attached),
{
    mode.samples_global_sigma_sq() && !variance_attached
}

/// How a sweep draws the global sigma^2.
#[derive(Clone, Copy, Debug, PartialEq, Eq, Structural)]
pub enum SigmaSqDraw {
    /// From its prior Inv-Gamma(nu / 2, nu lambda / 2): the likelihood is
    /// off.
    Prior,
    /// From its inverse-gamma conditional on the residuals.
    Conditional,
}

/// The noise update a sweep makes before the mean ensemble's, step by step.
#[derive(Clone, Copy, Debug, PartialEq, Eq, Structural)]
pub struct NoiseUpdate {
    /// The outcome's extra draw (its latent or weight refresh).
    pub refresh: bool,
    /// The outcome's working-response update.
    pub working_response: bool,
    /// The variance ensemble's sweep on the residuals.
    pub variance_sweep: bool,
    /// The global sigma^2 draw, if any.
    pub sigma_sq: Option<SigmaSqDraw>,
    /// The per-observation precisions are written anew.
    pub write_precisions: bool,
}

/// The noise update of a sweep:
/// - with a variance ensemble attached, the outcome's refresh and working
///   response (likelihood on), the ensemble's sweep, and the precisions
///   from its product (likelihood on);
/// - under a sampled sigma^2, the outcome's refresh, its working response
///   (likelihood on), the sigma^2 draw (from the prior under prior-only
///   sampling), and the precisions from it (likelihood on);
/// - under a fixed scale, the refresh and working response with the
///   likelihood on, and nothing under prior-only sampling;
/// - with no scale, nothing.
pub open spec fn noise_update_of(mode: Sigma2Mode, variance_attached: bool, prior_only: bool) -> NoiseUpdate {
    if variance_attached {
        NoiseUpdate {
            refresh: !prior_only,
            working_response: !prior_only,
            variance_sweep: true,
            sigma_sq: None,
            write_precisions: !prior_only,
        }
    } else {
        match mode {
            Sigma2Mode::Sampled => NoiseUpdate {
                refresh: true,
                working_response: !prior_only,
                variance_sweep: false,
                sigma_sq: Some(if prior_only { SigmaSqDraw::Prior } else { SigmaSqDraw::Conditional }),
                write_precisions: !prior_only,
            },
            Sigma2Mode::Fixed(_) => NoiseUpdate {
                refresh: !prior_only,
                working_response: !prior_only,
                variance_sweep: false,
                sigma_sq: None,
                write_precisions: false,
            },
            Sigma2Mode::Absent => NoiseUpdate {
                refresh: false,
                working_response: false,
                variance_sweep: false,
                sigma_sq: None,
                write_precisions: false,
            },
        }
    }
}

/// The noise update a sweep makes, from the outcome's scale mode, whether
/// a variance ensemble carries the scale, and whether the likelihood is
/// off.
pub fn noise_update(mode: Sigma2Mode, variance_attached: bool, prior_only: bool) -> (r: NoiseUpdate)
    ensures
        r == noise_update_of(mode, variance_attached, prior_only),
{
    if variance_attached {
        return NoiseUpdate {
            refresh: !prior_only,
            working_response: !prior_only,
            variance_sweep: true,
            sigma_sq: None,
            write_precisions: !prior_only,
        };
    }
    match mode {
        Sigma2Mode::Sampled => NoiseUpdate {
            refresh: true,
            working_response: !prior_only,
            variance_sweep: false,
            sigma_sq: Some(if prior_only { SigmaSqDraw::Prior } else { SigmaSqDraw::Conditional }),
            write_precisions: !prior_only,
        },
        Sigma2Mode::Fixed(_) => NoiseUpdate {
            refresh: !prior_only,
            working_response: !prior_only,
            variance_sweep: false,
            sigma_sq: None,
            write_precisions: false,
        },
        Sigma2Mode::Absent => NoiseUpdate {
            refresh: false,
            working_response: false,
            variance_sweep: false,
            sigma_sq: None,
            write_precisions: false,
        },
    }
}

/// Under prior-only sampling the likelihood never reaches the precisions
/// and no working response is updated; with a fixed scale such a sweep's
/// noise update does nothing at all; and a global sigma^2 is drawn exactly
/// when a kept draw records one.
pub proof fn prior_only_sweeps_leave_the_likelihood_out(
    mode: Sigma2Mode,
    variance_attached: bool,
)
    ensures
        !noise_update_of(mode, variance_attached, true).write_precisions,
        !noise_update_of(mode, variance_attached, true).working_response,
        mode is Fixed && !variance_attached ==> noise_update_of(mode, false, true) == (NoiseUpdate {
            refresh: false,
            working_response: false,
            variance_sweep: false,
            sigma_sq: None,
            write_precisions: false,
        }),
        forall|prior_only: bool|
            (#[trigger] noise_update_of(mode, variance_attached, prior_only)).sigma_sq is Some
                <==> (mode is Sampled && !variance_attached),
{
}

/// A chain closes into a fitted model only with at least one draw kept.
pub fn check_kept(kept: usize) -> (r: Result<(), Error>)
    ensures
        r == (if kept == 0 {
            Err(invalid(Field::Draws, Reason::NothingKept))
        } else {
            Ok::<(), Error>(())
        }),
{
    if kept == 0 {
        Err(Error::InvalidHyperparameter { name: Field::Draws, reason: Reason::NothingKept })
    } else {
        Ok(())
    }
}

/// A chain starts in a state of the schedule, each action of the schedule
/// leads from one of its states to another, and the schedule stops only
/// with every draw kept after exactly `burn_in + draws * thinning` sweeps:
/// the loop of burn-in sweeps, then `draws` rounds of `thinning` sweeps
/// each followed by a keep.
pub proof fn schedule_runs_the_sweeps_and_keeps_the_draws(
    g: GeneralParams,
    swept: nat,
    kept: nat,
)
    requires
        schedule_state(g, swept, kept),
    ensures
        schedule_state(g, 0, 0),
        schedule_action(g, swept, kept) is Sweep ==> schedule_state(g, swept + 1, kept),
        schedule_action(g, swept, kept) is Keep ==> schedule_state(g, swept, kept + 1)
            && swept == sweeps_at_keep(g, kept),
        schedule_action(g, swept, kept) is Done ==> kept == g.draws && swept == total_sweeps(g),
{
    assert((kept + 1) * g.thinning == kept * g.thinning + g.thinning) by (nonlinear_arith);
    assert(kept < g.draws ==> (kept + 1) * g.thinning <= g.draws * g.thinning)
        by (nonlinear_arith);
    assert((kept + 2) * g.thinning == (kept + 1) * g.thinning + g.thinning) by (nonlinear_arith);
    assert(0 * g.thinning == 0);
    assert(1 * g.thinning == g.thinning);
}

} // verus!
