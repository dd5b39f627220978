use vstd::prelude::*;

verus! {

/// A field of the host transport that must be present while the host plays.
#[derive(Debug, Clone, Copy, PartialEq, Eq, Structural)]
pub enum TransportField {
    Tempo,
    BarNumber,
    BarStartPosition,
    Position,
    TimeSigNumerator,
    TimeSigDenominator,
}

#[derive(Debug, Clone, Copy, PartialEq, Eq, Structural)]
pub enum Error {
    /// The host supplied a beat count that the meter does not admit.
    InvalidTimeSignatureTop,
    /// The host supplied a note value other than 2, 4, 8 or 16.
    InvalidTimeSignatureBottom,
    /// The host is playing but left out a required transport field.
    TransportFieldUnavailable { field: TransportField },
    /// The shared display state could not be acquired.
    DisplayStateUnavailable,
}

impl TransportField {
    /// Position of the field in the order in which the transport is sampled.
    pub open spec fn rank(self) -> int {
        match self {
            TransportField::Tempo => 0,
            TransportField::BarNumber => 1,
            TransportField::BarStartPosition => 2,
            TransportField::Position => 3,
            TransportField::TimeSigNumerator => 4,
            TransportField::TimeSigDenominator => 5,
        }
    }
}

impl Error {
    /// The number under which the error is shown; 0 is kept for "no error".
    pub open spec fn spec_code(self) -> int {
        match self {
            Error::InvalidTimeSignatureTop => 1,
            Error::InvalidTimeSignatureBottom => 2,
            Error::TransportFieldUnavailable { field } => 3 + field.rank(),
            Error::DisplayStateUnavailable => 9,
        }
    }

    pub fn code(&self) -> (c: isize)
        ensures
            c == self.spec_code(),
            1 <= c <= 9,
    {
        match self {
            Error::InvalidTimeSignatureTop => 1,
            Error::InvalidTimeSignatureBottom => 2,
            Error::TransportFieldUnavailable { field } => match field {
                TransportField::Tempo => 3,
                TransportField::BarNumber => 4,
                TransportField::BarStartPosition => 5,
                TransportField::Position => 6,
                TransportField::TimeSigNumerator => 7,
                TransportField::TimeSigDenominator => 8,
            },
            Error::DisplayStateUnavailable => 9,
        }
    }

    /// Distinct errors are shown under distinct codes, and none under 0.
    pub proof fn lemma_code_identifies(a: Error, b: Error)
        ensures
            a.spec_code() != 0,
            a.spec_code() == b.spec_code() ==> a == b,
    {
    }
}

} // verus!
