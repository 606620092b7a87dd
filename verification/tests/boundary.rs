use thiessen::{
    check_pinned_prior, check_response, first_invalid_label, first_non_finite, Config, Error,
    Field, Float, Outcome, Reason,
};

fn f(v: f64) -> Float {
    Float::from_bits(v.to_bits())
}

fn fs(values: &[f64]) -> Vec<Float> {
    values.iter().map(|&v| f(v)).collect()
}

#[test]
fn a_pinned_prior_needs_a_positive_lambda() {
    let config = Config::new();
    assert_eq!(check_pinned_prior(&config, f(1.0)), Ok(()));
    for bad in [0.0, -1.0, f64::NAN, f64::INFINITY] {
        match check_pinned_prior(&config, f(bad)) {
            Err(Error::InvalidHyperparameter {
                name: Field::Lambda,
                reason: Reason::NotFinitePositive(v),
            }) => assert_eq!(v.to_bits(), bad.to_bits()),
            other => panic!("{bad}: {other:?}"),
        }
    }
}

#[test]
fn a_pinned_probit_prior_needs_an_offset() {
    let probit = Config::new().with_outcome(Outcome::probit());
    assert_eq!(
        check_pinned_prior(&probit, f(1.0)),
        Err(Error::InvalidHyperparameter {
            name: Field::Offset,
            reason: Reason::OffsetRequired
        })
    );
    assert_eq!(
        check_pinned_prior(&probit.clone().with_offset(f(0.0)), f(1.0)),
        Ok(())
    );
}

#[test]
fn a_replacement_response_is_checked_in_order() {
    let gaussian = Config::new();
    assert_eq!(
        check_response(&gaussian, 30, &fs(&[1.0])),
        Err(Error::RowCountMismatch { y_len: 1, x_rows: 30 })
    );
    assert_eq!(
        check_response(&gaussian, 3, &fs(&[f64::NAN, 0.5, f64::INFINITY])),
        Err(Error::NonFiniteResponse { row: 0 })
    );
    assert_eq!(check_response(&gaussian, 3, &fs(&[0.3, 2.0, -7.0])), Ok(()));
    let probit = Config::new().with_outcome(Outcome::probit());
    assert_eq!(
        check_response(&probit, 3, &fs(&[2.0, 2.0, 2.0])),
        Err(Error::InvalidLabel { row: 0 })
    );
    assert_eq!(
        check_response(&probit, 3, &fs(&[0.0, 1.0, 0.5])),
        Err(Error::InvalidLabel { row: 2 })
    );
    assert_eq!(
        check_response(&probit, 3, &fs(&[1.0, f64::INFINITY, 0.5])),
        Err(Error::NonFiniteResponse { row: 1 })
    );
    assert_eq!(check_response(&probit, 3, &fs(&[0.0, 1.0, -0.0])), Ok(()));
}

#[test]
fn labels_compare_as_f64_values() {
    assert_eq!(first_invalid_label(&fs(&[0.0, -0.0, 1.0])), None);
    assert_eq!(first_invalid_label(&fs(&[0.0, 0.5, 3.0])), Some(1));
    assert_eq!(first_invalid_label(&fs(&[f64::NAN])), Some(0));
    assert_eq!(first_non_finite(&fs(&[1.0, -3.0, f64::NEG_INFINITY])), Some(2));
    assert_eq!(first_non_finite(&fs(&[])), None);
}
