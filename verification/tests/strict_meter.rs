use reaclick::error::Error;
use reaclick::music_theory::{Intensity, TimeSignature, TICKS_PER_CROTCHET};
use reaclick::reaclick::data::{make_strict, TimeSigCount, TimeSigValue};

#[test]
fn count_accepts_three_four_and_six() {
    for number in [3, 4, 6] {
        assert_eq!(TimeSigCount::new(number).unwrap().as_number(), number);
    }
}

#[test]
fn count_rejects_every_other_number() {
    for number in [-1, 0, 1, 2, 5, 7, 8, 9, 12] {
        assert_eq!(TimeSigCount::new(number), Err(Error::InvalidTimeSignatureTop));
    }
}

#[test]
fn value_accepts_the_four_note_values() {
    for number in [2, 4, 8, 16] {
        assert_eq!(TimeSigValue::new(number).unwrap().as_number(), number);
    }
}

#[test]
fn value_rejects_three() {
    assert_eq!(TimeSigValue::new(3), Err(Error::InvalidTimeSignatureBottom));
    assert_eq!(TimeSigValue::new(0), Err(Error::InvalidTimeSignatureBottom));
    assert_eq!(TimeSigValue::new(32), Err(Error::InvalidTimeSignatureBottom));
}

#[test]
fn note_value_is_a_crotchet_in_simple_meters_and_a_quaver_in_six() {
    assert_eq!(TICKS_PER_CROTCHET, 960);
    assert_eq!(TimeSigCount::new(3).unwrap().note_value(), 960);
    assert_eq!(TimeSigCount::new(4).unwrap().note_value(), 960);
    assert_eq!(TimeSigCount::new(6).unwrap().note_value(), 480);
}

#[test]
fn subaccents_follow_the_table() {
    let subaccents = |number: i32| -> Vec<i32> {
        let count = TimeSigCount::new(number).unwrap();
        (-1..=number).filter(|&i| count.is_subaccent(i)).collect()
    };
    assert_eq!(subaccents(3), Vec::<i32>::new());
    assert_eq!(subaccents(4), vec![1, 3]);
    assert_eq!(subaccents(6), vec![3]);
}

#[test]
fn strict_first_beat_is_the_accent() {
    for number in [3, 4, 6] {
        let count = TimeSigCount::new(number).unwrap();
        assert_eq!(count.intensity(0), Intensity::Accent);
        assert!(!count.is_subaccent(0));
    }
}

#[test]
fn strict_intensity_has_three_levels() {
    let four = TimeSigCount::new(4).unwrap();
    assert_eq!(four.intensity(1), Intensity::Subaccent);
    assert_eq!(four.intensity(2), Intensity::Normal);
    assert_eq!(four.intensity(3), Intensity::Subaccent);
    let six = TimeSigCount::new(6).unwrap();
    assert_eq!(six.intensity(3), Intensity::Subaccent);
    assert_eq!(six.intensity(2), Intensity::Normal);
}

#[test]
fn five_four_is_a_meter_in_the_open_scheme_alone() {
    assert_eq!(make_strict(5, 4), Err(Error::InvalidTimeSignatureTop));
    assert!(TimeSignature::make(5, 4).is_ok());
}

#[test]
fn three_below_is_rejected_in_both_schemes() {
    for top in [3, 4, 6] {
        assert_eq!(make_strict(top, 3), Err(Error::InvalidTimeSignatureBottom));
        assert_eq!(TimeSignature::make(top, 3), Err(Error::InvalidTimeSignatureBottom));
    }
    for top in [-2, 0, 5, 7] {
        assert!(make_strict(top, 3).is_err());
    }
}

#[test]
fn strict_meter_holds_its_pair() {
    let (count, value) = make_strict(6, 8).unwrap();
    assert_eq!(count.as_number(), 6);
    assert_eq!(value.as_number(), 8);
}
