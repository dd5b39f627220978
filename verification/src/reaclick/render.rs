use crate::music_theory::time_signature::beat_length;
use crate::reaclick::click::{Channel, Click, CLICK_LENGTH, LEFT_CHANNEL_ID, RIGHT_CHANNEL_ID};
use crate::reaclick::data::Playhead;
use crate::reaclick::oscillator::{
    in_unit_interval, lemma_phase_after_bound, lemma_phase_after_is_fractional_part, phase_after,
    Oscillator, Phase,
};
use crate::reaclick::scheduler::{
    click_of, is_silent, is_sounding_beat, lemma_beat_sounds_in_its_window,
};
use vstd::prelude::*;

verus! {

/// What writing `value` into frame `frame` of the channels that `channel`
/// routes to makes of a block: those samples hold the value, all others are
/// as before, and no channel changes its length.
pub open spec fn frame_written<T>(
    before: Seq<Vec<T>>,
    after: Seq<Vec<T>>,
    channel: Channel,
    frame: int,
    value: T,
) -> bool {
    &&& after.len() == before.len()
    &&& forall|c: int| 0 <= c < before.len() ==> (#[trigger] after[c])@.len() == before[c]@.len()
    &&& forall|c: int, k: int|
        0 <= c < before.len() && 0 <= k < before[c]@.len() ==> #[trigger] after[c]@[k] == if k
            == frame && channel.audible(c) {
            value
        } else {
            before[c]@[k]
        }
}

/// Writes one sample of a click into the channels it is routed to. A
/// channel that the block lacks, or that is shorter than `frame`, is passed
/// over.
pub fn write_frame<T: Copy>(buffer: &mut Vec<Vec<T>>, channel: Channel, frame: usize, value: T)
    ensures
        frame_written(old(buffer)@, final(buffer)@, channel, frame as int, value),
{
    if channel.is_audible(LEFT_CHANNEL_ID) && LEFT_CHANNEL_ID < buffer.len() && frame
        < buffer[LEFT_CHANNEL_ID].len() {
        buffer[LEFT_CHANNEL_ID][frame] = value;
    }
    if channel.is_audible(RIGHT_CHANNEL_ID) && RIGHT_CHANNEL_ID < buffer.len() && frame
        < buffer[RIGHT_CHANNEL_ID].len() {
        buffer[RIGHT_CHANNEL_ID][frame] = value;
    }
}

/// The point of the cycle at which frame `frame` of a block is taken, where
/// the block starts at `start` and sounds at `frequency`.
pub open spec fn phase_at(start: Phase, frequency: int, frame: nat) -> Phase {
    Phase {
        numerator: phase_after(
            start.numerator as int,
            frequency,
            start.denominator as int,
            frame,
        ) as u64,
        denominator: start.denominator,
    }
}

/// What rendering the first `frames` frames of a click makes of a block.
/// In the channels that the click is routed to, each of those frames holds
/// a sample that `tone` gives for that frame's phase, and where the click
/// goes to both channels they hold the same sample. Every other sample is
/// as before, and no channel changes its length.
pub open spec fn click_rendered<T, F: Fn(Phase) -> T>(
    before: Seq<Vec<T>>,
    after: Seq<Vec<T>>,
    click: Click,
    frames: int,
    start: Phase,
    tone: F,
) -> bool {
    &&& after.len() == before.len()
    &&& forall|c: int| 0 <= c < before.len() ==> (#[trigger] after[c])@.len() == before[c]@.len()
    &&& forall|c: int, k: int|
        0 <= c < before.len() && 0 <= k < before[c]@.len() ==> if click.channel.audible(c) && k
            < frames {
            call_ensures(
                tone,
                (phase_at(start, click.frequency as int, k as nat),),
                #[trigger] after[c]@[k],
            )
        } else {
            after[c]@[k] == before[c]@[k]
        }
    &&& click.channel == Channel::Both && before.len() > RIGHT_CHANNEL_ID ==> forall|k: int|
        0 <= k < frames && k < before[LEFT_CHANNEL_ID as int]@.len() && k
            < before[RIGHT_CHANNEL_ID as int]@.len() ==> #[trigger] after[LEFT_CHANNEL_ID as int]@[k]
            == after[RIGHT_CHANNEL_ID as int]@[k]
}

/// What rendering one block at `playhead` makes of the block and of the
/// oscillator. Where no beat sounds at the playhead, both are as before.
/// Where one does, the whole block holds its click, and the oscillator has
/// moved on by one step to the frame.
pub open spec fn block_rendered<T, F: Fn(Phase) -> T>(
    before: Vec<Vec<T>>,
    after: Vec<Vec<T>>,
    start: Phase,
    end: Phase,
    playhead: Playhead,
    frames: int,
    tone: F,
) -> bool {
    let offset = playhead.offset();
    let top = playhead.time_signature.top@;
    &&& is_silent(offset, top) ==> after == before && end == start
    &&& forall|index: int| #[trigger]
        is_sounding_beat(offset, top, index) ==> {
            &&& click_rendered(before@, after@, click_of(top, index), frames, start, tone)
            &&& end == phase_at(start, click_of(top, index).frequency as int, frames as nat)
        }
}

/// While the offset into the bar lies in the window of beat `index`, from
/// the beat's start to the end of its click, a rendered block holds that
/// beat's click in all its frames, and the oscillator has moved on by one
/// step to the frame.
pub proof fn lemma_block_is_rendered_in_the_window<T, F: Fn(Phase) -> T>(
    before: Vec<Vec<T>>,
    after: Vec<Vec<T>>,
    start: Phase,
    end: Phase,
    playhead: Playhead,
    frames: int,
    tone: F,
    index: int,
)
    requires
        block_rendered(before, after, start, end, playhead, frames, tone),
        0 <= index < playhead.time_signature.top@,
        index * beat_length(playhead.time_signature.top@) <= playhead.offset() <= index
            * beat_length(playhead.time_signature.top@) + CLICK_LENGTH,
    ensures
        click_rendered(
            before@,
            after@,
            click_of(playhead.time_signature.top@, index),
            frames,
            start,
            tone,
        ),
        end == phase_at(
            start,
            click_of(playhead.time_signature.top@, index).frequency as int,
            frames as nat,
        ),
{
    lemma_beat_sounds_in_its_window(playhead.offset(), playhead.time_signature.top@, index);
}

/// Whether `phase` is a fraction in [0, 1).
pub open spec fn in_cycle(phase: Phase) -> bool {
    in_unit_interval(phase.numerator as int, phase.denominator as int)
}

/// Whether the oscillator can run from `start` through `frames` frames at
/// `frequency` with its phase numerator inside the range of `u64`. It can
/// wherever the phase is a fraction in [0, 1) and the frequency is no
/// higher than the sample rate, for then the phase stays such a fraction;
/// and otherwise wherever the numerator has room for all that is added.
pub open spec fn can_render(start: Phase, frequency: int, frames: int) -> bool {
    ||| in_cycle(start) && frequency <= start.denominator
    ||| start.numerator + frames * frequency <= u64::MAX
}

/// Renders `frames` frames of `click` into the block, one oscillator step
/// to the frame, and leaves the oscillator where the next block goes on.
pub fn render_click<T: Copy, F: Fn(Phase) -> T>(
    oscillator: &mut Oscillator,
    click: Click,
    frames: usize,
    tone: &F,
    buffer: &mut Vec<Vec<T>>,
)
    requires
        can_render(old(oscillator)@, click.frequency as int, frames as int),
        forall|phase: Phase| call_requires(*tone, (phase,)),
    ensures
        final(oscillator)@ == phase_at(old(oscillator)@, click.frequency as int, frames as nat),
        click_rendered(
            old(buffer)@,
            final(buffer)@,
            click,
            frames as int,
            old(oscillator)@,
            *tone,
        ),
        in_cycle(old(oscillator)@) && click.frequency <= old(oscillator)@.denominator ==> in_cycle(
            final(oscillator)@,
        ),
{
    let ghost start = oscillator@;
    let ghost in_tune = in_cycle(start) && click.frequency <= start.denominator;
    proof {
        if in_tune {
            lemma_phase_after_is_fractional_part(
                start.numerator as int,
                click.frequency as int,
                start.denominator as int,
                frames as nat,
            );
        }
    }
    let ghost before = buffer@;
    let mut frame: usize = 0;
    while frame < frames
        invariant
            0 <= frame <= frames,
            in_tune == (in_cycle(start) && click.frequency <= start.denominator),
            in_tune || start.numerator + frames * click.frequency <= u64::MAX,
            forall|phase: Phase| call_requires(*tone, (phase,)),
            oscillator@ == phase_at(start, click.frequency as int, frame as nat),
            click_rendered(before, buffer@, click, frame as int, start, *tone),
        decreases frames - frame,
    {
        proof {
            if in_tune {
                lemma_phase_after_is_fractional_part(
                    start.numerator as int,
                    click.frequency as int,
                    start.denominator as int,
                    frame as nat,
                );
                lemma_phase_after_is_fractional_part(
                    start.numerator as int,
                    click.frequency as int,
                    start.denominator as int,
                    (frame + 1) as nat,
                );
            } else {
                lemma_phase_after_bound(
                    start.numerator as int,
                    click.frequency as int,
                    start.denominator as int,
                    frame as nat,
                );
                lemma_phase_after_bound(
                    start.numerator as int,
                    click.frequency as int,
                    start.denominator as int,
                    (frame + 1) as nat,
                );
                assert((frame + 1) * click.frequency <= frames * click.frequency)
                    by (nonlinear_arith)
                    requires
                        frame + 1 <= frames,
                        click.frequency >= 0,
                ;
                assert((frame + 1) * click.frequency == frame * click.frequency
                    + click.frequency) by (nonlinear_arith);
            }
        }
        let phase = oscillator.next_sample(click.frequency);
        let value = tone(phase);
        write_frame(buffer, click.channel, frame, value);
        frame += 1;
    }
}

} // verus!
