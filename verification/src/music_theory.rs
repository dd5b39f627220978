pub mod time_signature;

pub use time_signature::{
    Intensity, TimeSignature, TimeSignatureBottom, TimeSignatureTop, TICKS_PER_CROTCHET,
};
