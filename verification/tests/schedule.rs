use thiessen::{noise_update, NoiseUpdate, SigmaSqDraw, 
    check_kept, next_action, records_sigma_sq, Action, Config, Error, Field, Float, Reason,
    Sigma2Mode,
};

/// Drives the schedule as a chain's loop would, returning the sweeps made
/// before each keep and the total sweeps.
fn drive(burn_in: usize, draws: usize, thinning: usize) -> (Vec<usize>, usize) {
    let general = Config::new()
        .with_burn_in(burn_in)
        .with_draws(draws)
        .with_thinning(thinning)
        .general_params;
    let (mut swept, mut kept) = (0, 0);
    let mut keeps = Vec::new();
    loop {
        match next_action(&general, swept, kept) {
            Action::Sweep => swept += 1,
            Action::Keep => {
                keeps.push(swept);
                kept += 1;
            }
            Action::Done => return (keeps, swept),
        }
    }
}

#[test]
fn the_schedule_is_burn_in_then_thinned_rounds() {
    assert_eq!(drive(20, 3, 2), (vec![22, 24, 26], 26));
    assert_eq!(drive(0, 2, 1), (vec![1, 2], 2));
    assert_eq!(drive(5, 0, 3), (vec![], 5));
    assert_eq!(drive(4, 2, 0), (vec![4, 4], 4));
}

#[test]
fn a_kept_draw_records_sigma_squared_only_when_sampled_and_unattached() {
    assert!(records_sigma_sq(Sigma2Mode::Sampled, false));
    assert!(!records_sigma_sq(Sigma2Mode::Sampled, true));
    let one = Float::from_bits(1.0f64.to_bits());
    assert!(!records_sigma_sq(Sigma2Mode::Fixed(one), false));
    assert!(!records_sigma_sq(Sigma2Mode::Absent, false));
}

#[test]
fn a_chain_closes_only_with_a_draw_kept() {
    assert_eq!(
        check_kept(0),
        Err(Error::InvalidHyperparameter {
            name: Field::Draws,
            reason: Reason::NothingKept
        })
    );
    assert_eq!(Reason::NothingKept.text(), "no draws were kept");
    assert_eq!(check_kept(1), Ok(()));
}

#[test]
fn the_noise_update_follows_the_scale_mode() {
    let one = Float::from_bits(1.0f64.to_bits());
    assert_eq!(
        noise_update(Sigma2Mode::Sampled, false, false),
        NoiseUpdate {
            refresh: true,
            working_response: true,
            variance_sweep: false,
            sigma_sq: Some(SigmaSqDraw::Conditional),
            write_precisions: true
        }
    );
    assert_eq!(
        noise_update(Sigma2Mode::Sampled, false, true),
        NoiseUpdate {
            refresh: true,
            working_response: false,
            variance_sweep: false,
            sigma_sq: Some(SigmaSqDraw::Prior),
            write_precisions: false
        }
    );
    let nothing = NoiseUpdate {
        refresh: false,
        working_response: false,
        variance_sweep: false,
        sigma_sq: None,
        write_precisions: false,
    };
    assert_eq!(noise_update(Sigma2Mode::Fixed(one), false, true), nothing);
    assert_eq!(noise_update(Sigma2Mode::Absent, false, false), nothing);
    assert_eq!(
        noise_update(Sigma2Mode::Fixed(one), false, false),
        NoiseUpdate {
            refresh: true,
            working_response: true,
            ..nothing
        }
    );
    assert_eq!(
        noise_update(Sigma2Mode::Sampled, true, false),
        NoiseUpdate {
            refresh: true,
            working_response: true,
            variance_sweep: true,
            sigma_sq: None,
            write_precisions: true
        }
    );
    assert_eq!(
        noise_update(Sigma2Mode::Sampled, true, true),
        NoiseUpdate {
            variance_sweep: true,
            ..nothing
        }
    );
}
