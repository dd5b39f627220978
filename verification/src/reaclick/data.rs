use crate::error::Error;
use crate::music_theory::time_signature::{accented, beat_length, intensity_of, rejection};
use crate::music_theory::{Intensity, TimeSignature, TICKS_PER_CROTCHET};
use vstd::prelude::*;

verus! {

/// Beat counts that the strict meter admits.
pub open spec fn valid_count(number: int) -> bool {
    number == 3 || number == 4 || number == 6
}

/// Note values that the strict meter admits.
pub open spec fn valid_value(number: int) -> bool {
    number == 2 || number == 4 || number == 8 || number == 16
}

/// Ticks from one beat to the next in a bar of `count` beats: a quarter note
/// in 3 and 4, an eighth in 6.
pub open spec fn note_value_of(count: int) -> int {
    if count == 6 {
        TICKS_PER_CROTCHET / 2
    } else {
        TICKS_PER_CROTCHET as int
    }
}

/// Whether beat `note_index` (counted from 0) is a subaccent in a bar of
/// `count` beats.
pub open spec fn subaccented(count: int, note_index: int) -> bool {
    if count == 4 {
        note_index == 1 || note_index == 3
    } else if count == 6 {
        note_index == 3
    } else {
        false
    }
}

/// The intensity of beat `note_index` in the strict meter: the first beat
/// is the accent, the subaccents follow the table, the rest is normal.
pub open spec fn strict_intensity_of(count: int, note_index: int) -> Intensity {
    if note_index == 0 {
        Intensity::Accent
    } else if subaccented(count, note_index) {
        Intensity::Subaccent
    } else {
        Intensity::Normal
    }
}

/// The beat count of the strict meter: 3, 4 or 6.
#[derive(Debug, Clone, Copy, PartialEq, Eq, Structural)]
pub struct TimeSigCount(i32);

impl View for TimeSigCount {
    type V = int;

    closed spec fn view(&self) -> int {
        self.0 as int
    }
}

impl TimeSigCount {
    #[verifier::type_invariant]
    spec fn inv(self) -> bool {
        valid_count(self.0 as int)
    }

    pub open spec fn wf(self) -> bool {
        valid_count(self@)
    }

    pub fn new(number: i32) -> (r: Result<Self, Error>)
        ensures
            valid_count(number as int) ==> r is Ok && r->Ok_0@ == number,
            !valid_count(number as int) ==> r == Err::<Self, Error>(
                Error::InvalidTimeSignatureTop,
            ),
    {
        match number {
            3 | 4 | 6 => Ok(Self(number)),
            _ => Err(Error::InvalidTimeSignatureTop),
        }
    }

    pub fn as_number(&self) -> (n: i32)
        ensures
            n == self@,
            self.wf(),
    {
        proof {
            use_type_invariant(self);
        }
        self.0
    }

    pub fn note_value(&self) -> (ticks: i64)
        ensures
            ticks == note_value_of(self@),
    {
        match self.0 {
            6 => TICKS_PER_CROTCHET / 2,
            _ => TICKS_PER_CROTCHET,
        }
    }

    pub fn is_subaccent(&self, note_index: i32) -> (r: bool)
        ensures
            r == subaccented(self@, note_index as int),
    {
        match self.0 {
            4 => note_index == 1 || note_index == 3,
            6 => note_index == 3,
            _ => false,
        }
    }

    pub fn intensity(&self, note_index: i32) -> (r: Intensity)
        ensures
            r == strict_intensity_of(self@, note_index as int),
    {
        if note_index == 0 {
            Intensity::Accent
        } else if self.is_subaccent(note_index) {
            Intensity::Subaccent
        } else {
            Intensity::Normal
        }
    }
}

/// The note value of the strict meter: 2, 4, 8 or 16.
#[derive(Debug, Clone, Copy, PartialEq, Eq, Structural)]
pub struct TimeSigValue(i32);

impl View for TimeSigValue {
    type V = int;

    closed spec fn view(&self) -> int {
        self.0 as int
    }
}

impl TimeSigValue {
    #[verifier::type_invariant]
    spec fn inv(self) -> bool {
        valid_value(self.0 as int)
    }

    pub open spec fn wf(self) -> bool {
        valid_value(self@)
    }

    pub fn new(number: i32) -> (r: Result<Self, Error>)
        ensures
            valid_value(number as int) ==> r is Ok && r->Ok_0@ == number,
            !valid_value(number as int) ==> r == Err::<Self, Error>(
                Error::InvalidTimeSignatureBottom,
            ),
    {
        match number {
            2 | 4 | 8 | 16 => Ok(Self(number)),
            _ => Err(Error::InvalidTimeSignatureBottom),
        }
    }

    pub fn as_number(&self) -> (n: i32)
        ensures
            n == self@,
            self.wf(),
    {
        proof {
            use_type_invariant(self);
        }
        self.0
    }
}

/// Why the pair `top`/`bottom` is no strict meter, if it is none. The beat
/// count is looked at first.
pub open spec fn strict_rejection(top: int, bottom: int) -> Option<Error> {
    if !valid_count(top) {
        Some(Error::InvalidTimeSignatureTop)
    } else if !valid_value(bottom) {
        Some(Error::InvalidTimeSignatureBottom)
    } else {
        None
    }
}

/// Validates a pair as a strict meter.
pub fn make_strict(top: i32, bottom: i32) -> (r: Result<(TimeSigCount, TimeSigValue), Error>)
    ensures
        match r {
            Ok((count, value)) => strict_rejection(top as int, bottom as int) is None && count@
                == top && value@ == bottom,
            Err(e) => strict_rejection(top as int, bottom as int) == Some(e),
        },
{
    let count = TimeSigCount::new(top)?;
    let value = TimeSigValue::new(bottom)?;
    Ok((count, value))
}

/// Three is no note value: a pair with 3 below is no meter, whatever
/// stands above, neither in the open scheme nor in the strict one.
pub proof fn lemma_bottom_three_is_rejected(top: int)
    ensures
        rejection(top, 3) is Some,
        strict_rejection(top, 3) is Some,
{
}

/// The strict scheme admits the beat counts 3, 4 and 6 alone; the open
/// scheme admits every positive count. So each strict meter is an open
/// meter too, and a pair with another positive count above a note value
/// is a meter in the open scheme alone.
pub proof fn lemma_strict_meters_are_open(top: int, bottom: int)
    ensures
        strict_rejection(top, bottom) is None ==> rejection(top, bottom) is None,
        top >= 1 && !valid_count(top) && valid_value(bottom) ==> rejection(top, bottom) is None
            && strict_rejection(top, bottom) == Some(Error::InvalidTimeSignatureTop),
{
}

/// The two schemes lay the beats of a bar alike: for a beat count of the
/// strict scheme, the ticks from beat to beat are the open scheme's beat
/// length.
pub proof fn lemma_schemes_agree_on_beat_length(count: int)
    requires
        valid_count(count),
    ensures
        note_value_of(count) == beat_length(count),
{
}

/// The first beat of a bar is the accent in both schemes, whatever the
/// meter.
pub proof fn lemma_first_beat_is_accent(top: int)
    ensures
        intensity_of(top, 0) == Intensity::Accent,
        strict_intensity_of(top, 0) == Intensity::Accent,
        accented(top, 0),
        !subaccented(top, 0),
{
}

/// The host's transport at the start of one block, every field present.
///
/// Tempo is in thousandths of a quarter note per minute; both positions are
/// in ticks from the start of the song.
#[derive(Debug, Clone, Copy, PartialEq, Eq, Structural)]
pub struct Playhead {
    pub tempo: u32,
    pub bar_number: i32,
    pub bar_start_pos_crotchets: i64,
    pub pos_crotchets: i64,
    pub time_signature: TimeSignature,
}

impl Playhead {
    /// Ticks from the start of the current bar to the playhead.
    pub open spec fn offset(self) -> int {
        self.pos_crotchets - self.bar_start_pos_crotchets
    }

    pub fn pos_in_bar(&self) -> (ticks: i128)
        ensures
            ticks == self.offset(),
    {
        self.pos_crotchets as i128 - self.bar_start_pos_crotchets as i128
    }
}

} // verus!
