use voice_engine_core::crossing::{Sign, ZeroCrossingCounter};

fn count_of(signs: &[Sign]) -> usize {
    let mut counter = ZeroCrossingCounter::new();
    for s in signs {
        counter.observe(*s);
    }
    counter.count()
}

#[test]
fn fresh_counter_counts_nothing() {
    assert_eq!(ZeroCrossingCounter::new().count(), 0);
}

#[test]
fn single_sample_is_never_a_crossing() {
    assert_eq!(count_of(&[Sign::Positive]), 0);
    assert_eq!(count_of(&[Sign::Negative]), 0);
}

#[test]
fn alternating_signs_cross_at_every_sample_after_the_first() {
    let signs: Vec<Sign> = (0..10)
        .map(|i| if i % 2 == 0 { Sign::Positive } else { Sign::Negative })
        .collect();
    assert_eq!(count_of(&signs), 9);
}

#[test]
fn dead_zone_does_not_reset_reference_sign() {
    assert_eq!(count_of(&[Sign::Positive, Sign::Zero, Sign::Zero, Sign::Negative]), 1);
    assert_eq!(count_of(&[Sign::Positive, Sign::Zero, Sign::Positive]), 0);
}

#[test]
fn leading_dead_zone_samples_give_no_reference() {
    assert_eq!(count_of(&[Sign::Zero, Sign::Zero, Sign::Negative, Sign::Positive]), 1);
}

#[test]
fn repeated_sign_is_not_a_crossing() {
    assert_eq!(count_of(&[Sign::Negative, Sign::Negative, Sign::Negative]), 0);
}

#[test]
fn quiet_frame_has_no_crossings() {
    assert_eq!(count_of(&vec![Sign::Zero; 480]), 0);
}

#[test]
fn crossings_stay_below_frame_length() {
    let signs = [
        Sign::Negative,
        Sign::Positive,
        Sign::Zero,
        Sign::Negative,
        Sign::Positive,
        Sign::Negative,
    ];
    let n = count_of(&signs);
    assert_eq!(n, 4);
    assert!(n < signs.len());
}
