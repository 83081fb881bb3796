use dirichlet::binary64::{positive, small, INFINITY, ONE, TENTH, ZERO};
use dirichlet::{Dirichlet, Error, Strategy};

fn patterns(values: &[f64]) -> Vec<u64> {
    values.iter().map(|x| x.to_bits()).collect()
}

#[test]
fn dirichlet_distributions_can_be_compared() {
    assert_eq!(
        Dirichlet::new(&patterns(&[1.0, 2.0])),
        Dirichlet::new(&patterns(&[1.0, 2.0]))
    );
}

#[test]
#[should_panic]
fn test_dirichlet_invalid_length() {
    Dirichlet::new_with_size(0.5f64.to_bits(), 1).unwrap();
}

#[test]
#[should_panic]
fn test_dirichlet_invalid_alpha() {
    Dirichlet::new_with_size(0.0f64.to_bits(), 2).unwrap();
}

#[test]
fn distributions_of_differing_vectors_differ() {
    let a = Dirichlet::new(&patterns(&[1.0, 2.0])).unwrap();
    let b = Dirichlet::new(&patterns(&[1.0, 2.5])).unwrap();
    let c = Dirichlet::new(&patterns(&[1.0, 2.0, 3.0])).unwrap();
    let d = Dirichlet::new(&patterns(&[2.0, 1.0])).unwrap();
    assert_ne!(a, b);
    assert_ne!(a, c);
    assert_ne!(a, d);
    assert_eq!(a, a.clone());
}

#[test]
fn both_constructors_agree() {
    let a = Dirichlet::new(&patterns(&[0.5, 0.5, 0.5])).unwrap();
    let b = Dirichlet::new_with_size(0.5f64.to_bits(), 3).unwrap();
    assert_eq!(a, b);
    assert_eq!(b.alpha(), &patterns(&[0.5, 0.5, 0.5])[..]);
}

#[test]
fn new_keeps_the_vector() {
    let alpha = patterns(&[1.0, 2.0, 3.0]);
    let d = Dirichlet::new(&alpha).unwrap();
    assert_eq!(d.alpha(), &alpha[..]);
    assert_eq!(d.alpha().len(), 3);
}

#[test]
fn short_vectors_are_refused() {
    assert_eq!(Dirichlet::new(&[]), Err(Error::AlphaTooShort));
    assert_eq!(Dirichlet::new(&patterns(&[1.0])), Err(Error::AlphaTooShort));
}

#[test]
fn a_short_vector_is_too_short_whatever_it_holds() {
    assert_eq!(Dirichlet::new(&patterns(&[-1.0])), Err(Error::AlphaTooShort));
    assert_eq!(Dirichlet::new(&patterns(&[f64::NAN])), Err(Error::AlphaTooShort));
}

#[test]
fn values_that_are_not_positive_are_refused() {
    assert_eq!(Dirichlet::new(&patterns(&[1.0, -1.0])), Err(Error::AlphaTooSmall));
    assert_eq!(Dirichlet::new(&patterns(&[1.0, f64::NAN])), Err(Error::AlphaTooSmall));
    assert_eq!(Dirichlet::new(&patterns(&[0.0, 1.0])), Err(Error::AlphaTooSmall));
    assert_eq!(Dirichlet::new(&patterns(&[1.0, 2.0, -0.0])), Err(Error::AlphaTooSmall));
    assert_eq!(
        Dirichlet::new(&patterns(&[1.0, f64::NEG_INFINITY])),
        Err(Error::AlphaTooSmall)
    );
    assert_eq!(Dirichlet::new(&patterns(&[-f64::NAN, 1.0])), Err(Error::AlphaTooSmall));
}

#[test]
fn every_positive_value_is_accepted() {
    let alpha = patterns(&[f64::MIN_POSITIVE, 5e-324, f64::MAX, f64::INFINITY]);
    assert!(Dirichlet::new(&alpha).is_ok());
}

#[test]
fn a_small_size_is_refused() {
    assert_eq!(Dirichlet::new_with_size(0.5f64.to_bits(), 1), Err(Error::SizeTooSmall));
    assert_eq!(Dirichlet::new_with_size(0.5f64.to_bits(), 0), Err(Error::SizeTooSmall));
}

#[test]
fn a_value_that_is_not_positive_is_refused_whatever_the_size() {
    assert_eq!(Dirichlet::new_with_size(0.0f64.to_bits(), 2), Err(Error::AlphaTooSmall));
    assert_eq!(Dirichlet::new_with_size(0.0f64.to_bits(), 1), Err(Error::AlphaTooSmall));
    assert_eq!(Dirichlet::new_with_size(f64::NAN.to_bits(), 5), Err(Error::AlphaTooSmall));
    assert_eq!(Dirichlet::new_with_size((-2.0f64).to_bits(), 0), Err(Error::AlphaTooSmall));
}

#[test]
fn errors_describe_themselves() {
    assert_eq!(
        Error::AlphaTooShort.message(),
        "less than 2 dimensions in Dirichlet distribution"
    );
    assert_eq!(
        Error::SizeTooSmall.message(),
        "less than 2 dimensions in Dirichlet distribution"
    );
    assert_eq!(
        Error::AlphaTooSmall.message(),
        "alpha is not positive in Dirichlet distribution"
    );
}

#[test]
fn the_constants_are_the_patterns_of_their_values() {
    assert_eq!(ZERO, 0.0f64.to_bits());
    assert_eq!(ONE, 1.0f64.to_bits());
    assert_eq!(TENTH, 0.1f64.to_bits());
    assert_eq!(INFINITY, f64::INFINITY.to_bits());
}

#[test]
fn positive_is_above_zero() {
    let values = [
        0.0,
        -0.0,
        5e-324,
        -5e-324,
        f64::MIN_POSITIVE,
        0.1,
        1.0,
        -1.0,
        f64::MAX,
        f64::MIN,
        f64::INFINITY,
        f64::NEG_INFINITY,
        f64::NAN,
        -f64::NAN,
    ];
    for x in values {
        assert_eq!(positive(x.to_bits()), x > 0.0);
    }
    assert!(!positive(0x7FF0_0000_0000_0001));
    assert!(!positive(0xFFFF_FFFF_FFFF_FFFF));
}

#[test]
fn small_is_at_most_one_tenth() {
    let values = [
        0.0,
        -0.0,
        5e-324,
        -5e-324,
        0.05,
        0.09999999999999999,
        0.1,
        0.10000000000000002,
        0.2,
        1.0,
        -0.2,
        -1.0,
        f64::MAX,
        f64::MIN,
        f64::INFINITY,
        f64::NEG_INFINITY,
        f64::NAN,
        -f64::NAN,
    ];
    for x in values {
        assert_eq!(small(x.to_bits()), x <= 0.1);
    }
    assert!(!small(0x7FF0_0000_0000_0001));
    assert!(!small(0xFFF0_0000_0000_0001));
}

#[test]
fn the_strategy_turns_at_one_tenth() {
    let at = Dirichlet::new(&patterns(&[0.1, 0.1, 0.1])).unwrap();
    assert_eq!(at.strategy(), Strategy::StickBreaking);
    let below = Dirichlet::new(&patterns(&[0.001, 0.05, 0.1])).unwrap();
    assert_eq!(below.strategy(), Strategy::StickBreaking);
    let just_above = Dirichlet::new(&patterns(&[0.1, 0.10000000000000002])).unwrap();
    assert_eq!(just_above.strategy(), Strategy::GammaNormalization);
    let one_large = Dirichlet::new(&patterns(&[0.01, 0.01, 0.01, 7.0])).unwrap();
    assert_eq!(one_large.strategy(), Strategy::GammaNormalization);
    let all_large = Dirichlet::new(&patterns(&[1.0, 2.0, 3.0])).unwrap();
    assert_eq!(all_large.strategy(), Strategy::GammaNormalization);
}
