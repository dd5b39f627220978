use crate::music_theory::Intensity;
use vstd::prelude::*;

verus! {

pub const LEFT_CHANNEL_ID: usize = 0;

pub const RIGHT_CHANNEL_ID: usize = 1;

/// The output channels that a click is routed to.
#[derive(Debug, Clone, Copy, PartialEq, Eq, Structural)]
pub enum Channel {
    Left,
    Right,
    Both,
}

impl Channel {
    /// Whether a click routed to `self` is written to channel `channel_id`.
    /// Channels beyond the first two never carry a click.
    pub open spec fn audible(self, channel_id: int) -> bool {
        match self {
            Channel::Left => channel_id == LEFT_CHANNEL_ID,
            Channel::Right => channel_id == RIGHT_CHANNEL_ID,
            Channel::Both => channel_id == LEFT_CHANNEL_ID || channel_id == RIGHT_CHANNEL_ID,
        }
    }

    pub fn is_audible(&self, channel_id: usize) -> (r: bool)
        ensures
            r == self.audible(channel_id as int),
    {
        match self {
            Channel::Left => channel_id == LEFT_CHANNEL_ID,
            Channel::Right => channel_id == RIGHT_CHANNEL_ID,
            Channel::Both => channel_id == LEFT_CHANNEL_ID || channel_id == RIGHT_CHANNEL_ID,
        }
    }
}

/// How one kind of click sounds: where, at what pitch in Hz, and for how
/// many ticks from the start of its beat.
#[derive(Debug, Clone, Copy, PartialEq, Eq, Structural)]
pub struct Click {
    pub channel: Channel,
    pub frequency: u32,
    pub length: i64,
}

/// Ticks for which every click sounds: an eighth of a quarter note.
pub const CLICK_LENGTH: i64 = 120;

/// The highest pitch in the click table, in Hz.
pub const MAX_CLICK_FREQUENCY: u32 = 1_600;

impl Click {
    /// The click for each intensity.
    pub open spec fn of(intensity: Intensity) -> Click {
        match intensity {
            Intensity::Accent => Click {
                channel: Channel::Right,
                frequency: 400,
                length: CLICK_LENGTH,
            },
            Intensity::Subaccent => Click {
                channel: Channel::Left,
                frequency: 800,
                length: CLICK_LENGTH,
            },
            Intensity::Normal => Click {
                channel: Channel::Both,
                frequency: MAX_CLICK_FREQUENCY,
                length: CLICK_LENGTH,
            },
        }
    }

    /// Body Beat Pulse Solo accent (high-intensity) click
    pub fn accent() -> (click: Click)
        ensures
            click == Click::of(Intensity::Accent),
    {
        Click { channel: Channel::Right, frequency: 400, length: CLICK_LENGTH }
    }

    /// Body Beat Pulse Solo subaccent (medium-intensity) click
    pub fn subaccent() -> (click: Click)
        ensures
            click == Click::of(Intensity::Subaccent),
    {
        Click { channel: Channel::Left, frequency: 800, length: CLICK_LENGTH }
    }

    /// Body Beat Pulse Solo normal (low-intensity) click
    pub fn normal() -> (click: Click)
        ensures
            click == Click::of(Intensity::Normal),
    {
        Click { channel: Channel::Both, frequency: MAX_CLICK_FREQUENCY, length: CLICK_LENGTH }
    }

    pub fn for_intensity(intensity: Intensity) -> (click: Click)
        ensures
            click == Click::of(intensity),
            click.frequency <= MAX_CLICK_FREQUENCY,
            click.length == CLICK_LENGTH,
    {
        match intensity {
            Intensity::Accent => Click::accent(),
            Intensity::Subaccent => Click::subaccent(),
            Intensity::Normal => Click::normal(),
        }
    }
}

} // verus!
