use crate::music_theory::time_signature::basis_of;
use crate::music_theory::TICKS_PER_CROTCHET;
use crate::reaclick::data::Playhead;
use crate::reaclick::display::DisplayData;
use vstd::prelude::*;

verus! {

/// `numerator / denominator`, rounded towards zero.
pub open spec fn truncated_quotient(numerator: int, denominator: int) -> int {
    if numerator >= 0 {
        numerator / denominator
    } else {
        -((-numerator) / denominator)
    }
}

/// The tempo in written beats per minute, in thousandths, of a tempo given
/// in thousandths of a quarter note per minute. Compound meters count three
/// written beats as one.
pub open spec fn beats_per_minute_of(tempo: int, top: int, bottom: int) -> int {
    tempo * bottom / (4 * basis_of(top))
}

/// The number, from 1, of the written beat that holds the playhead: the
/// whole `1/bottom` notes that lie between the bar line and the playhead,
/// plus one.
pub open spec fn beat_number_of(offset: int, bottom: int) -> int {
    truncated_quotient(offset * bottom, 4 * TICKS_PER_CROTCHET) + 1
}

impl Playhead {
    /// The tempo in written beats per minute, in thousandths.
    pub fn beats_per_minute(&self) -> (bpm: u64)
        ensures
            bpm == beats_per_minute_of(
                self.tempo as int,
                self.time_signature.top@,
                self.time_signature.bottom@,
            ),
    {
        let bottom = self.time_signature.bottom.as_number();
        let basis = self.time_signature.top.basis();
        assert(self.tempo * bottom <= u32::MAX * 16) by (nonlinear_arith)
            requires
                0 <= bottom <= 16,
                self.tempo <= u32::MAX,
        ;
        (self.tempo as u64 * bottom as u64) / (4 * basis as u64)
    }

    /// The number, from 1, of the written beat that holds the playhead.
    pub fn beat_number(&self) -> (beat: i64)
        ensures
            beat == beat_number_of(self.offset(), self.time_signature.bottom@),
    {
        let bottom = self.time_signature.bottom.as_number();
        let offset = self.pos_in_bar();
        let span: i128 = 4 * TICKS_PER_CROTCHET as i128;
        if offset >= 0 {
            assert(0 <= offset * bottom <= 0x1_0000_0000_0000_0000 * 16) by (nonlinear_arith)
                requires
                    0 <= bottom <= 16,
                    0 <= offset <= 0x1_0000_0000_0000_0000,
            ;
            let scaled: i128 = offset * bottom as i128;
            assert(span == 3840);
            assert(0 <= scaled / 3840 <= 0x1_0000_0000_0000_0000 * 16 / 3840);
            (scaled / span) as i64 + 1
        } else {
            assert(0 <= (-offset) * bottom <= 0x1_0000_0000_0000_0000 * 16) by (nonlinear_arith)
                requires
                    0 <= bottom <= 16,
                    0 <= -offset <= 0x1_0000_0000_0000_0000,
            ;
            assert(offset * bottom == -((-offset) * bottom)) by (nonlinear_arith);
            let scaled: i128 = (-offset) * bottom as i128;
            assert(span == 3840);
            assert(0 <= scaled / 3840 <= 0x1_0000_0000_0000_0000 * 16 / 3840);
            -((scaled / span) as i64) + 1
        }
    }
}

/// Where the song stands: the bar, and the positions of the bar line and
/// of the playhead in ticks.
#[derive(Debug, Clone, Copy, PartialEq, Eq, Structural)]
pub struct SongPosition {
    pub bar_number: i32,
    pub bar_start_pos_crotchets: i64,
    pub pos_crotchets: i64,
}

/// The tempo in thousandths, in quarter notes and in written beats per
/// minute.
#[derive(Debug, Clone, Copy, PartialEq, Eq, Structural)]
pub struct TempoReadout {
    pub qpm: u32,
    pub bpm: u64,
}

/// The written beat that holds the playhead, counted from 1, and the meter.
#[derive(Debug, Clone, Copy, PartialEq, Eq, Structural)]
pub struct BeatReadout {
    pub beat: i64,
    pub top: i32,
    pub bottom: i32,
}

/// The figures that a visualization shows for one display state. While
/// the host does not play there is no position (the display is idle), no
/// tempo and no beat; the error is there where the state has one.
#[derive(Debug, Clone, Copy, PartialEq, Eq, Structural)]
pub struct DisplayReadout {
    pub song_position: Option<SongPosition>,
    pub tempo: Option<TempoReadout>,
    pub big: Option<BeatReadout>,
    pub error: Option<isize>,
}

impl DisplayReadout {
    /// The figures for `data`.
    pub open spec fn of(data: DisplayData) -> DisplayReadout {
        let error = match data.error {
            Some(e) => Some(e.spec_code() as isize),
            None => None,
        };
        match data.playhead {
            Some(playhead) => DisplayReadout {
                song_position: Some(
                    SongPosition {
                        bar_number: playhead.bar_number,
                        bar_start_pos_crotchets: playhead.bar_start_pos_crotchets,
                        pos_crotchets: playhead.pos_crotchets,
                    },
                ),
                tempo: Some(
                    TempoReadout {
                        qpm: playhead.tempo,
                        bpm: beats_per_minute_of(
                            playhead.tempo as int,
                            playhead.time_signature.top@,
                            playhead.time_signature.bottom@,
                        ) as u64,
                    },
                ),
                big: Some(
                    BeatReadout {
                        beat: beat_number_of(
                            playhead.offset(),
                            playhead.time_signature.bottom@,
                        ) as i64,
                        top: playhead.time_signature.top@ as i32,
                        bottom: playhead.time_signature.bottom@ as i32,
                    },
                ),
                error,
            },
            None => DisplayReadout { song_position: None, tempo: None, big: None, error },
        }
    }

    pub fn new(data: &DisplayData) -> (readout: DisplayReadout)
        ensures
            readout == DisplayReadout::of(*data),
    {
        let error = match data.error {
            Some(e) => Some(e.code()),
            None => None,
        };
        match data.playhead {
            Some(playhead) => DisplayReadout {
                song_position: Some(
                    SongPosition {
                        bar_number: playhead.bar_number,
                        bar_start_pos_crotchets: playhead.bar_start_pos_crotchets,
                        pos_crotchets: playhead.pos_crotchets,
                    },
                ),
                tempo: Some(
                    TempoReadout { qpm: playhead.tempo, bpm: playhead.beats_per_minute() },
                ),
                big: Some(
                    BeatReadout {
                        beat: playhead.beat_number(),
                        top: playhead.time_signature.top.as_number(),
                        bottom: playhead.time_signature.bottom.as_number(),
                    },
                ),
                error,
            },
            None => DisplayReadout { song_position: None, tempo: None, big: None, error },
        }
    }
}

} // verus!
