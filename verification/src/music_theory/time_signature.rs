use crate::error::Error;
use vstd::prelude::*;

verus! {

/// How strongly a beat is marked.
#[derive(Debug, Clone, Copy, PartialEq, Eq, Structural)]
pub enum Intensity {
    Accent,
    Subaccent,
    Normal,
}

/// Ticks to the quarter note: the grid on which positions are counted.
pub const TICKS_PER_CROTCHET: i64 = 960;

/// Beat counts that a bar may have: any positive number.
pub open spec fn valid_top(value: int) -> bool {
    value >= 1
}

/// Note values that a beat may have.
pub open spec fn valid_bottom(value: int) -> bool {
    value == 2 || value == 4 || value == 8 || value == 16
}

/// Number of written beats that make up one felt pulse: 3 in the compound
/// meters 6, 9 and 12, else 1.
pub open spec fn basis_of(top: int) -> int {
    if top == 6 || top == 9 || top == 12 {
        3
    } else {
        1
    }
}

/// Ticks from one beat to the next in a bar of `top` beats, whatever the
/// note value: a quarter note in a bar of 3 or 4 beats, half of one in a
/// bar of 6.
///
/// For the other beat counts a choice is made here. The compound bars of 9
/// and 12 beats go like the bar of 6, half a quarter note to the beat;
/// every other bar goes like those of 3 and 4, a quarter note to the beat.
/// So the beat is half a quarter note exactly where three written beats
/// make one pulse.
pub open spec fn beat_length(top: int) -> int {
    if basis_of(top) == 3 {
        TICKS_PER_CROTCHET / 2
    } else {
        TICKS_PER_CROTCHET as int
    }
}

/// Whether beat `index` (counted from 0) carries an accent in a bar of `top`
/// beats. The first beat always does; the others by the meter's grouping.
pub open spec fn accented(top: int, index: int) -> bool {
    index == 0 || if top == 4 {
        index == 2
    } else if top == 6 {
        index == 3
    } else if top == 9 {
        index == 3 || index == 6
    } else if top == 12 {
        index == 3 || index == 6 || index == 9
    } else {
        false
    }
}

/// The intensity of beat `index`: the first beat is the accent, the other
/// accented beats are subaccents, the rest is normal.
pub open spec fn intensity_of(top: int, index: int) -> Intensity {
    if index == 0 {
        Intensity::Accent
    } else if accented(top, index) {
        Intensity::Subaccent
    } else {
        Intensity::Normal
    }
}

/// A time signature's top number (i.e. the count)
#[derive(Debug, Clone, Copy, PartialEq, Eq, Structural)]
pub struct TimeSignatureTop(i32);

impl View for TimeSignatureTop {
    type V = int;

    closed spec fn view(&self) -> int {
        self.0 as int
    }
}

impl TimeSignatureTop {
    #[verifier::type_invariant]
    spec fn inv(self) -> bool {
        valid_top(self.0 as int)
    }

    pub open spec fn wf(self) -> bool {
        valid_top(self@)
    }

    /// What validating `value` gives: the count itself where it is positive.
    pub closed spec fn validated(value: i32) -> Result<Self, Error> {
        if valid_top(value as int) {
            Ok(Self(value))
        } else {
            Err(Error::InvalidTimeSignatureTop)
        }
    }

    pub proof fn lemma_validated(value: i32)
        ensures
            valid_top(value as int) ==> Self::validated(value) is Ok && Self::validated(
                value,
            )->Ok_0@ == value,
            !valid_top(value as int) ==> Self::validated(value) == Err::<Self, Error>(
                Error::InvalidTimeSignatureTop,
            ),
    {
    }

    pub fn as_number(&self) -> (n: i32)
        ensures
            n == self@,
            self.wf(),
    {
        proof {
            use_type_invariant(self);
        }
        self.0
    }

    pub fn basis(&self) -> (b: i32)
        ensures
            b == basis_of(self@),
    {
        match self.0 {
            6 | 9 | 12 => 3,
            _ => 1,
        }
    }

    pub fn is_accented(&self, index: i32) -> (r: bool)
        ensures
            r == accented(self@, index as int),
    {
        if index == 0 {
            true
        } else {
            match self.0 {
                4 => index == 2,
                6 => index == 3,
                9 => index == 3 || index == 6,
                12 => index == 3 || index == 6 || index == 9,
                _ => false,
            }
        }
    }

    pub fn intensity(&self, index: i32) -> (r: Intensity)
        ensures
            r == intensity_of(self@, index as int),
    {
        if index == 0 {
            Intensity::Accent
        } else if self.is_accented(index) {
            Intensity::Subaccent
        } else {
            Intensity::Normal
        }
    }

    /// Ticks from one beat to the next.
    pub fn beat_length(&self) -> (ticks: i64)
        ensures
            ticks == beat_length(self@),
    {
        match self.0 {
            6 | 9 | 12 => TICKS_PER_CROTCHET / 2,
            _ => TICKS_PER_CROTCHET,
        }
    }
}

/// A time signature's bottom number (i.e. the note value or quantum)
#[derive(Debug, Clone, Copy, PartialEq, Eq, Structural)]
pub struct TimeSignatureBottom(i32);

impl View for TimeSignatureBottom {
    type V = int;

    closed spec fn view(&self) -> int {
        self.0 as int
    }
}

impl TimeSignatureBottom {
    #[verifier::type_invariant]
    spec fn inv(self) -> bool {
        valid_bottom(self.0 as int)
    }

    pub open spec fn wf(self) -> bool {
        valid_bottom(self@)
    }

    /// What validating `value` gives: the note value itself where it is one
    /// of 2, 4, 8 and 16.
    pub closed spec fn validated(value: i32) -> Result<Self, Error> {
        if valid_bottom(value as int) {
            Ok(Self(value))
        } else {
            Err(Error::InvalidTimeSignatureBottom)
        }
    }

    pub proof fn lemma_validated(value: i32)
        ensures
            valid_bottom(value as int) ==> Self::validated(value) is Ok && Self::validated(
                value,
            )->Ok_0@ == value,
            !valid_bottom(value as int) ==> Self::validated(value) == Err::<Self, Error>(
                Error::InvalidTimeSignatureBottom,
            ),
    {
    }

    pub fn as_number(&self) -> (n: i32)
        ensures
            n == self@,
            self.wf(),
    {
        proof {
            use_type_invariant(self);
        }
        self.0
    }
}

impl TryFrom<i32> for TimeSignatureTop {
    type Error = Error;

    fn try_from(value: i32) -> (r: Result<Self, Self::Error>)
        ensures
            r == Self::validated(value),
            valid_top(value as int) ==> r is Ok && r->Ok_0@ == value,
            !valid_top(value as int) ==> r == Err::<Self, Error>(Error::InvalidTimeSignatureTop),
    {
        if value >= 1 {
            Ok(Self(value))
        } else {
            Err(Error::InvalidTimeSignatureTop)
        }
    }
}

impl vstd::std_specs::convert::TryFromSpecImpl<i32> for TimeSignatureTop {
    open spec fn obeys_try_from_spec() -> bool {
        true
    }

    open spec fn try_from_spec(value: i32) -> Result<Self, Self::Error> {
        Self::validated(value)
    }
}

impl TryFrom<i32> for TimeSignatureBottom {
    type Error = Error;

    fn try_from(value: i32) -> (r: Result<Self, Self::Error>)
        ensures
            r == Self::validated(value),
            valid_bottom(value as int) ==> r is Ok && r->Ok_0@ == value,
            !valid_bottom(value as int) ==> r == Err::<Self, Error>(
                Error::InvalidTimeSignatureBottom,
            ),
    {
        match value {
            2 | 4 | 8 | 16 => Ok(Self(value)),
            _ => Err(Error::InvalidTimeSignatureBottom),
        }
    }
}

impl vstd::std_specs::convert::TryFromSpecImpl<i32> for TimeSignatureBottom {
    open spec fn obeys_try_from_spec() -> bool {
        true
    }

    open spec fn try_from_spec(value: i32) -> Result<Self, Self::Error> {
        Self::validated(value)
    }
}

/// A validated meter: `top` beats to the bar, each a `1/bottom` note.
#[derive(Debug, Clone, Copy, PartialEq, Eq, Structural)]
pub struct TimeSignature {
    pub top: TimeSignatureTop,
    pub bottom: TimeSignatureBottom,
}

/// Why the pair `top`/`bottom` is no meter, if it is none. The beat count is
/// looked at first.
pub open spec fn rejection(top: int, bottom: int) -> Option<Error> {
    if !valid_top(top) {
        Some(Error::InvalidTimeSignatureTop)
    } else if !valid_bottom(bottom) {
        Some(Error::InvalidTimeSignatureBottom)
    } else {
        None
    }
}

impl TimeSignature {
    /// The meter of `top` beats, each a `1/bottom` note, where that pair
    /// is a meter.
    pub open spec fn meter(top: i32, bottom: i32) -> TimeSignature {
        TimeSignature {
            top: TimeSignatureTop::validated(top)->Ok_0,
            bottom: TimeSignatureBottom::validated(bottom)->Ok_0,
        }
    }

    /// What `make` gives: the meter, or why the pair is none.
    pub open spec fn made(top: i32, bottom: i32) -> Result<TimeSignature, Error> {
        match rejection(top as int, bottom as int) {
            Some(e) => Err(e),
            None => Ok(Self::meter(top, bottom)),
        }
    }

    /// The meter of a valid pair holds that pair.
    pub proof fn lemma_meter(top: i32, bottom: i32)
        requires
            rejection(top as int, bottom as int) is None,
        ensures
            Self::meter(top, bottom).top@ == top,
            Self::meter(top, bottom).bottom@ == bottom,
            Self::meter(top, bottom).top.wf(),
            Self::meter(top, bottom).bottom.wf(),
    {
        TimeSignatureTop::lemma_validated(top);
        TimeSignatureBottom::lemma_validated(bottom);
    }

    pub fn make(top: i32, bottom: i32) -> (r: Result<TimeSignature, Error>)
        ensures
            r == Self::made(top, bottom),
            match r {
                Ok(meter) => rejection(top as int, bottom as int) is None && meter.top@ == top
                    && meter.bottom@ == bottom,
                Err(e) => rejection(top as int, bottom as int) == Some(e),
            },
    {
        let top = match TimeSignatureTop::try_from(top) {
            Ok(top) => top,
            Err(e) => {
                return Err(e);
            },
        };
        let bottom = match TimeSignatureBottom::try_from(bottom) {
            Ok(bottom) => bottom,
            Err(e) => {
                return Err(e);
            },
        };
        Ok(TimeSignature { top, bottom })
    }

    pub fn basis(&self) -> (b: i32)
        ensures
            b == basis_of(self.top@),
    {
        self.top.basis()
    }

    /// Ticks from one beat to the next. It goes by the beat count, not by
    /// the note value.
    pub fn beat_length(&self) -> (ticks: i64)
        ensures
            ticks == beat_length(self.top@),
    {
        self.top.beat_length()
    }

    pub fn is_accented(&self, index: i32) -> (r: bool)
        ensures
            r == accented(self.top@, index as int),
    {
        self.top.is_accented(index)
    }

    pub fn intensity(&self, index: i32) -> (r: Intensity)
        ensures
            r == intensity_of(self.top@, index as int),
    {
        self.top.intensity(index)
    }
}

} // verus!
