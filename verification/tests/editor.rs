use reaclick::error::{Error, TransportField};
use reaclick::music_theory::TimeSignature;
use reaclick::reaclick::data::Playhead;
use reaclick::reaclick::display::{Diagnostics, Display, DisplayData};
use reaclick::reaclick::editor::{BeatReadout, DisplayReadout, SongPosition, TempoReadout};

fn playhead(top: i32, bottom: i32, tempo: u32, bar_start: i64, pos: i64) -> Playhead {
    Playhead {
        tempo,
        bar_number: 7,
        bar_start_pos_crotchets: bar_start,
        pos_crotchets: pos,
        time_signature: TimeSignature::make(top, bottom).unwrap(),
    }
}

fn diagnostics() -> Diagnostics {
    Diagnostics {
        sample_rate: 44_100,
        min_buffer_size: Some(64),
        max_buffer_size: 2_048,
        samples: 512,
        channels: 2,
    }
}

#[test]
fn beats_per_minute_follow_the_written_meter() {
    assert_eq!(playhead(4, 4, 120_000, 0, 0).beats_per_minute(), 120_000);
    assert_eq!(playhead(3, 4, 90_500, 0, 0).beats_per_minute(), 90_500);
    assert_eq!(playhead(6, 8, 120_000, 0, 0).beats_per_minute(), 80_000);
    assert_eq!(playhead(9, 8, 120_000, 0, 0).beats_per_minute(), 80_000);
    assert_eq!(playhead(12, 16, 120_000, 0, 0).beats_per_minute(), 160_000);
    assert_eq!(playhead(5, 8, 120_000, 0, 0).beats_per_minute(), 240_000);
    assert_eq!(playhead(2, 2, 120_000, 0, 0).beats_per_minute(), 60_000);
    assert_eq!(playhead(6, 4, 100_000, 0, 0).beats_per_minute(), 33_333);
    assert_eq!(playhead(4, 16, u32::MAX, 0, 0).beats_per_minute(), u32::MAX as u64 * 4);
}

#[test]
fn beat_number_counts_written_beats_from_one() {
    assert_eq!(playhead(4, 4, 0, 0, 0).beat_number(), 1);
    assert_eq!(playhead(4, 4, 0, 0, 959).beat_number(), 1);
    assert_eq!(playhead(4, 4, 0, 0, 960).beat_number(), 2);
    assert_eq!(playhead(4, 4, 0, 0, 2_880).beat_number(), 4);
    assert_eq!(playhead(4, 4, 0, 3_840, 3_840 + 1_000).beat_number(), 2);
    assert_eq!(playhead(6, 8, 0, 0, 1_440).beat_number(), 4);
    assert_eq!(playhead(6, 8, 0, 0, 1_439).beat_number(), 3);
    assert_eq!(playhead(3, 2, 0, 0, 1_919).beat_number(), 1);
    assert_eq!(playhead(3, 2, 0, 0, 1_920).beat_number(), 2);
    assert_eq!(playhead(7, 16, 0, 0, 6 * 240).beat_number(), 7);
}

#[test]
fn beat_number_rounds_towards_the_bar_line() {
    assert_eq!(playhead(4, 4, 0, 0, -1).beat_number(), 1);
    assert_eq!(playhead(4, 4, 0, 0, -959).beat_number(), 1);
    assert_eq!(playhead(4, 4, 0, 0, -960).beat_number(), 0);
    assert_eq!(playhead(4, 4, 0, 0, -1_920).beat_number(), -1);
    assert_eq!(
        playhead(4, 16, 0, i64::MIN, i64::MAX).beat_number(),
        ((u64::MAX as i128 * 16) / 3_840 + 1) as i64
    );
    assert_eq!(
        playhead(4, 16, 0, i64::MAX, i64::MIN).beat_number(),
        (-((u64::MAX as i128 * 16) / 3_840) + 1) as i64
    );
}

#[test]
fn readout_of_a_playing_state() {
    let mut display = Display::new();
    display.publish(diagnostics(), Some(playhead(6, 8, 120_000, 1_920, 3_360)), None).unwrap();
    let readout = DisplayReadout::new(&display.read());
    assert_eq!(
        readout.song_position,
        Some(SongPosition { bar_number: 7, bar_start_pos_crotchets: 1_920, pos_crotchets: 3_360 })
    );
    assert_eq!(readout.tempo, Some(TempoReadout { qpm: 120_000, bpm: 80_000 }));
    assert_eq!(readout.big, Some(BeatReadout { beat: 4, top: 6, bottom: 8 }));
    assert_eq!(readout.error, None);
}

#[test]
fn readout_of_an_idle_state() {
    let readout = DisplayReadout::new(&DisplayData::default());
    assert_eq!(
        readout,
        DisplayReadout { song_position: None, tempo: None, big: None, error: None }
    );
}

#[test]
fn readout_shows_the_error() {
    let mut display = Display::new();
    let error = Error::TransportFieldUnavailable { field: TransportField::TimeSigNumerator };
    display.update(Some(error), &None).unwrap();
    let readout = DisplayReadout::new(&display.read());
    assert_eq!(
        readout,
        DisplayReadout { song_position: None, tempo: None, big: None, error: Some(7) }
    );
}
