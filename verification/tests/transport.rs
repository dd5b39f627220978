use reaclick::error::{Error, TransportField};
use reaclick::reaclick::plugin::ReaClick;
use reaclick::reaclick::transport::Transport;

fn playing() -> Transport {
    Transport {
        playing: true,
        tempo: Some(120_000),
        bar_number: Some(3),
        bar_start_pos_crotchets: Some(7_680),
        pos_crotchets: Some(8_640),
        time_sig_numerator: Some(4),
        time_sig_denominator: Some(4),
    }
}

fn unavailable(field: TransportField) -> Error {
    Error::TransportFieldUnavailable { field }
}

#[test]
fn a_stopped_transport_gives_no_playhead() {
    let transport = Transport { playing: false, ..playing() };
    assert_eq!(transport.sample(), Ok(None));
}

#[test]
fn a_stopped_transport_is_not_looked_into() {
    let transport = Transport {
        playing: false,
        tempo: None,
        bar_number: None,
        bar_start_pos_crotchets: None,
        pos_crotchets: None,
        time_sig_numerator: Some(0),
        time_sig_denominator: Some(3),
    };
    assert_eq!(transport.sample(), Ok(None));
}

#[test]
fn a_playing_transport_gives_its_fields() {
    let playhead = playing().sample().unwrap().unwrap();
    assert_eq!(playhead.tempo, 120_000);
    assert_eq!(playhead.bar_number, 3);
    assert_eq!(playhead.bar_start_pos_crotchets, 7_680);
    assert_eq!(playhead.pos_crotchets, 8_640);
    assert_eq!(playhead.time_signature.top.as_number(), 4);
    assert_eq!(playhead.time_signature.bottom.as_number(), 4);
}

#[test]
fn each_missing_field_is_named() {
    assert_eq!(
        Transport { tempo: None, ..playing() }.sample(),
        Err(unavailable(TransportField::Tempo))
    );
    assert_eq!(
        Transport { bar_number: None, ..playing() }.sample(),
        Err(unavailable(TransportField::BarNumber))
    );
    assert_eq!(
        Transport { bar_start_pos_crotchets: None, ..playing() }.sample(),
        Err(unavailable(TransportField::BarStartPosition))
    );
    assert_eq!(
        Transport { pos_crotchets: None, ..playing() }.sample(),
        Err(unavailable(TransportField::Position))
    );
    assert_eq!(
        Transport { time_sig_numerator: None, ..playing() }.sample(),
        Err(unavailable(TransportField::TimeSigNumerator))
    );
    assert_eq!(
        Transport { time_sig_denominator: None, ..playing() }.sample(),
        Err(unavailable(TransportField::TimeSigDenominator))
    );
}

#[test]
fn the_first_missing_field_is_the_one_named() {
    let transport = Transport { bar_number: None, pos_crotchets: None, ..playing() };
    assert_eq!(transport.sample(), Err(unavailable(TransportField::BarNumber)));
    let transport = Transport {
        playing: true,
        tempo: None,
        bar_number: None,
        bar_start_pos_crotchets: None,
        pos_crotchets: None,
        time_sig_numerator: None,
        time_sig_denominator: None,
    };
    assert_eq!(transport.sample(), Err(unavailable(TransportField::Tempo)));
}

#[test]
fn a_missing_field_comes_before_a_bad_meter() {
    let transport =
        Transport { time_sig_numerator: Some(0), time_sig_denominator: None, ..playing() };
    assert_eq!(transport.sample(), Err(unavailable(TransportField::TimeSigDenominator)));
}

#[test]
fn a_bad_meter_is_rejected() {
    assert_eq!(
        Transport { time_sig_numerator: Some(0), ..playing() }.sample(),
        Err(Error::InvalidTimeSignatureTop)
    );
    assert_eq!(
        Transport { time_sig_denominator: Some(3), ..playing() }.sample(),
        Err(Error::InvalidTimeSignatureBottom)
    );
    assert_eq!(
        Transport { time_sig_numerator: Some(-4), time_sig_denominator: Some(5), ..playing() }
            .sample(),
        Err(Error::InvalidTimeSignatureTop)
    );
}

#[test]
fn the_engine_samples_as_the_transport_does() {
    let engine = ReaClick::new();
    assert_eq!(engine.get_playhead(&playing()), playing().sample());
    let broken = Transport { tempo: None, ..playing() };
    assert_eq!(engine.get_playhead(&broken), Err(unavailable(TransportField::Tempo)));
}
