pub mod data;

use vstd::prelude::*;

verus! {

/// Nanoseconds to the millisecond.
pub const NANOS_PER_MILLI: u128 = 1_000_000;

/// Where the emitter stands in its cycle.
#[derive(Debug, Clone, Copy, PartialEq, Eq, Structural)]
pub enum State {
    Idle,
    NoteOnSent,
    NoteOffSent,
}

/// A note event for the host. Velocity runs from 0 to 127.
#[derive(Debug, Clone, Copy, PartialEq, Eq, Structural)]
pub enum NoteEvent {
    NoteOn { timing: u32, voice_id: Option<i32>, channel: u8, note: u8, velocity: u8 },
    NoteOff { timing: u32, voice_id: Option<i32>, channel: u8, note: u8, velocity: u8 },
}

/// The note that is sent, how long it sounds, and how long one cycle
/// takes, both in milliseconds from the note's start.
#[derive(Debug, Clone, Copy, PartialEq, Eq, Structural)]
pub struct ClickTrackPluginParams {
    pub timing: u32,
    pub voice_id: Option<i32>,
    pub channel: u8,
    pub note: u8,
    pub velocity: u8,
    pub note_interval_millis: u128,
    pub note_length: u128,
}

impl ClickTrackPluginParams {
    pub open spec fn initial() -> ClickTrackPluginParams {
        ClickTrackPluginParams {
            timing: 0,
            voice_id: None,
            channel: 1,
            note: 64,
            velocity: 127,
            note_interval_millis: 1000,
            note_length: 500,
        }
    }

    /// The note-on event for these parameters.
    pub open spec fn note_on(self) -> NoteEvent {
        NoteEvent::NoteOn {
            timing: self.timing,
            voice_id: self.voice_id,
            channel: self.channel,
            note: self.note,
            velocity: self.velocity,
        }
    }

    /// The note-off event for these parameters.
    pub open spec fn note_off(self) -> NoteEvent {
        NoteEvent::NoteOff {
            timing: self.timing,
            voice_id: self.voice_id,
            channel: self.channel,
            note: self.note,
            velocity: self.velocity,
        }
    }
}

impl Default for ClickTrackPluginParams {
    fn default() -> (params: Self)
        ensures
            params == ClickTrackPluginParams::initial(),
    {
        Self {
            timing: 0,
            voice_id: None,
            channel: 1,
            note: 64,
            velocity: 127,
            note_interval_millis: 1000,
            note_length: 500,
        }
    }
}

/// Whole milliseconds from `since` to `now`, both in nanoseconds from one
/// epoch; 0 where `now` is the earlier.
pub open spec fn elapsed_millis(since: int, now: int) -> int {
    if now >= since {
        (now - since) / (NANOS_PER_MILLI as int)
    } else {
        0
    }
}

/// A timer-driven emitter of one note: on, off after the note's length,
/// on again after the interval.
#[derive(Debug, Clone, Copy, PartialEq, Eq, Structural)]
pub struct ClickTrackPlugin {
    pub params: ClickTrackPluginParams,
    pub state: State,
    pub note_on_at: u128,
}

impl ClickTrackPlugin {
    /// The emitter after one call at time `now`.
    pub open spec fn stepped(self, now: u128) -> ClickTrackPlugin {
        let millis = elapsed_millis(self.note_on_at as int, now as int);
        match self.state {
            State::Idle => ClickTrackPlugin { state: State::NoteOnSent, note_on_at: now, ..self },
            State::NoteOnSent => if millis > self.params.note_length {
                ClickTrackPlugin { state: State::NoteOffSent, ..self }
            } else {
                self
            },
            State::NoteOffSent => if millis > self.params.note_interval_millis {
                ClickTrackPlugin { state: State::NoteOnSent, note_on_at: now, ..self }
            } else {
                self
            },
        }
    }

    /// The event that one call at time `now` sends, if it sends one.
    pub open spec fn emitted(self, now: u128) -> Option<NoteEvent> {
        let millis = elapsed_millis(self.note_on_at as int, now as int);
        match self.state {
            State::Idle => Some(self.params.note_on()),
            State::NoteOnSent => if millis > self.params.note_length {
                Some(self.params.note_off())
            } else {
                None
            },
            State::NoteOffSent => if millis > self.params.note_interval_millis {
                Some(self.params.note_on())
            } else {
                None
            },
        }
    }

    pub fn new_note_on(&self) -> (event: NoteEvent)
        ensures
            event == self.params.note_on(),
    {
        NoteEvent::NoteOn {
            timing: self.params.timing,
            voice_id: self.params.voice_id,
            channel: self.params.channel,
            note: self.params.note,
            velocity: self.params.velocity,
        }
    }

    pub fn new_note_off(&self) -> (event: NoteEvent)
        ensures
            event == self.params.note_off(),
    {
        NoteEvent::NoteOff {
            timing: self.params.timing,
            voice_id: self.params.voice_id,
            channel: self.params.channel,
            note: self.params.note,
            velocity: self.params.velocity,
        }
    }

    /// Whole milliseconds since the last note-on.
    pub fn millis_since_note_on(&self, now: u128) -> (millis: u128)
        ensures
            millis == elapsed_millis(self.note_on_at as int, now as int),
    {
        if now >= self.note_on_at {
            (now - self.note_on_at) / NANOS_PER_MILLI
        } else {
            0
        }
    }

    /// One call of the host at time `now`, in nanoseconds from the epoch:
    /// moves the emitter on and gives the event to send, if there is one.
    pub fn process(&mut self, now: u128) -> (event: Option<NoteEvent>)
        ensures
            *final(self) == old(self).stepped(now),
            event == old(self).emitted(now),
    {
        match self.state {
            State::Idle => {
                let event = self.new_note_on();
                self.state = State::NoteOnSent;
                self.note_on_at = now;
                Some(event)
            },
            State::NoteOnSent => {
                let millis = self.millis_since_note_on(now);
                if millis > self.params.note_length {
                    let event = self.new_note_off();
                    self.state = State::NoteOffSent;
                    Some(event)
                } else {
                    None
                }
            },
            State::NoteOffSent => {
                let millis = self.millis_since_note_on(now);
                if millis > self.params.note_interval_millis {
                    let event = self.new_note_on();
                    self.state = State::NoteOnSent;
                    self.note_on_at = now;
                    Some(event)
                } else {
                    None
                }
            },
        }
    }
}

impl Default for ClickTrackPlugin {
    fn default() -> (plugin: Self)
        ensures
            plugin == (ClickTrackPlugin {
                params: ClickTrackPluginParams::initial(),
                state: State::Idle,
                note_on_at: 0,
            }),
    {
        Self { params: ClickTrackPluginParams::default(), state: State::Idle, note_on_at: 0 }
    }
}

} // verus!
