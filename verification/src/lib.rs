//! A metronome click-track engine. Once per audio block it samples the
//! host's musical transport, finds the beat of the bar that is sounding,
//! and renders a phase-continuous tone for it. What it saw is published
//! for a visualization to read.
//!
//! # Units
//!
//! All quantities are integers. Positions are counted in ticks,
//! [`music_theory::TICKS_PER_CROTCHET`] to the quarter note; tempo in
//! thousandths of a quarter note per minute; pitch and sample rate in Hz.
//! The oscillator's phase is a numerator over the sample rate, and a sample
//! of the tone is whatever the caller's `tone` gives for such a phase: the
//! engine is generic in the sample type.
//!
//! # Meters and accents
//!
//! Two schemes of meter live side by side. The open scheme
//! ([`music_theory::TimeSignature`]) admits every positive beat count and
//! marks three levels: the accent on the first beat, subaccents on the
//! beats that open the later groups of a bar of 4, 6, 9 or 12, normal
//! clicks elsewhere. The strict scheme ([`reaclick::data::TimeSigCount`])
//! admits 3, 4 and 6 alone, and puts its subaccents on the second and
//! fourth beat of four and on the fourth of six. The engine schedules by
//! the open scheme.
//!
//! In both schemes the beats of a bar lie apart by the beat count alone,
//! whatever the note value: a quarter note in a bar of 3 or 4 beats, half
//! of one in a bar of 6. For the other counts of the open scheme a choice
//! is made: bars of 9 and 12 beats go like the bar of 6, all others like
//! those of 3 and 4. The figures for a display
//! ([`reaclick::editor::DisplayReadout`]) count written notes instead, and
//! so go by the note value.
//!
//! # Modules
//!
//! - [`music_theory`]: validated meters and their accents.
//! - [`reaclick`]: the engine, from the oscillator up to the block
//!   pipeline and the display state.
//! - [`click_track`]: a timer-driven emitter of one note.
//! - [`error`], [`result`]: the errors and a helper for absent values.
//! - [`sync`]: what is taken on trust of `std::sync::Mutex`.

pub mod click_track;
pub mod error;
pub mod music_theory;
pub mod reaclick;
pub mod result;
pub mod sync;
