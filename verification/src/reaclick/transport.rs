use crate::error::{Error, TransportField};
use crate::music_theory::time_signature::rejection;
use crate::music_theory::TimeSignature;
use crate::reaclick::data::Playhead;
use crate::result::GetOrError;
use vstd::prelude::*;

verus! {

/// What the host says of its transport for one block. A field that the host
/// does not report is absent.
///
/// Tempo is in thousandths of a quarter note per minute; both positions are
/// in ticks from the start of the song.
#[derive(Debug, Clone, Copy, PartialEq, Eq, Structural)]
pub struct Transport {
    pub playing: bool,
    pub tempo: Option<u32>,
    pub bar_number: Option<i32>,
    pub bar_start_pos_crotchets: Option<i64>,
    pub pos_crotchets: Option<i64>,
    pub time_sig_numerator: Option<i32>,
    pub time_sig_denominator: Option<i32>,
}

impl Transport {
    /// The first field, in the order in which they are asked for, that the
    /// host left out.
    pub open spec fn missing_field(self) -> Option<TransportField> {
        if self.tempo is None {
            Some(TransportField::Tempo)
        } else if self.bar_number is None {
            Some(TransportField::BarNumber)
        } else if self.bar_start_pos_crotchets is None {
            Some(TransportField::BarStartPosition)
        } else if self.pos_crotchets is None {
            Some(TransportField::Position)
        } else if self.time_sig_numerator is None {
            Some(TransportField::TimeSigNumerator)
        } else if self.time_sig_denominator is None {
            Some(TransportField::TimeSigDenominator)
        } else {
            None
        }
    }

    /// Why a playing transport gives no playhead, if it gives none: the
    /// first missing field, or else what is wrong with the meter.
    pub open spec fn fault(self) -> Option<Error> {
        match self.missing_field() {
            Some(field) => Some(Error::TransportFieldUnavailable { field }),
            None => rejection(
                self.time_sig_numerator->0 as int,
                self.time_sig_denominator->0 as int,
            ),
        }
    }

    /// Whether `playhead` holds the fields of this transport.
    pub open spec fn read_by(self, playhead: Playhead) -> bool {
        &&& self.tempo == Some(playhead.tempo)
        &&& self.bar_number == Some(playhead.bar_number)
        &&& self.bar_start_pos_crotchets == Some(playhead.bar_start_pos_crotchets)
        &&& self.pos_crotchets == Some(playhead.pos_crotchets)
        &&& self.time_sig_numerator matches Some(top) && top == playhead.time_signature.top@
        &&& self.time_sig_denominator matches Some(bottom) && bottom
            == playhead.time_signature.bottom@
    }

    /// What sampling this transport gives: nothing while the host does not
    /// play; the fault where a playing transport has one; else the playhead
    /// that holds its fields.
    pub open spec fn sampled(self) -> Result<Option<Playhead>, Error> {
        if !self.playing {
            Ok(None)
        } else {
            match self.fault() {
                Some(e) => Err(e),
                None => Ok(
                    Some(
                        Playhead {
                            tempo: self.tempo->0,
                            bar_number: self.bar_number->0,
                            bar_start_pos_crotchets: self.bar_start_pos_crotchets->0,
                            pos_crotchets: self.pos_crotchets->0,
                            time_signature: TimeSignature::meter(
                                self.time_sig_numerator->0,
                                self.time_sig_denominator->0,
                            ),
                        },
                    ),
                ),
            }
        }
    }

    /// A playhead that was sampled holds the transport's fields.
    pub proof fn lemma_sampled_playhead(self)
        requires
            self.sampled() matches Ok(Some(_)),
        ensures
            self.playing,
            self.fault() is None,
            self.read_by(self.sampled()->Ok_0->0),
    {
        TimeSignature::lemma_meter(self.time_sig_numerator->0, self.time_sig_denominator->0);
    }

    /// Takes the playhead of this block from the host's transport.
    pub fn sample(&self) -> (outcome: Result<Option<Playhead>, Error>)
        ensures
            outcome == self.sampled(),
            outcome matches Ok(Some(playhead)) ==> self.read_by(playhead),
    {
        if !self.playing {
            return Ok(None);
        }
        let tempo = self.tempo.get_or_error(
            Error::TransportFieldUnavailable { field: TransportField::Tempo },
        )?;
        let bar_number = self.bar_number.get_or_error(
            Error::TransportFieldUnavailable { field: TransportField::BarNumber },
        )?;
        let bar_start_pos_crotchets = self.bar_start_pos_crotchets.get_or_error(
            Error::TransportFieldUnavailable { field: TransportField::BarStartPosition },
        )?;
        let pos_crotchets = self.pos_crotchets.get_or_error(
            Error::TransportFieldUnavailable { field: TransportField::Position },
        )?;
        let time_sig_numerator = self.time_sig_numerator.get_or_error(
            Error::TransportFieldUnavailable { field: TransportField::TimeSigNumerator },
        )?;
        let time_sig_denominator = self.time_sig_denominator.get_or_error(
            Error::TransportFieldUnavailable { field: TransportField::TimeSigDenominator },
        )?;
        let time_signature = TimeSignature::make(time_sig_numerator, time_sig_denominator)?;
        Ok(
            Some(
                Playhead {
                    tempo,
                    bar_number,
                    bar_start_pos_crotchets,
                    pos_crotchets,
                    time_signature,
                },
            ),
        )
    }
}

} // verus!
