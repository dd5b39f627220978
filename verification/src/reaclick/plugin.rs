use crate::error::Error;
use crate::reaclick::click::MAX_CLICK_FREQUENCY;
use crate::reaclick::data::Playhead;
use crate::reaclick::display::{
    published_or_unavailable, Diagnostics, Display, DisplayData, DisplayReader,
};
use crate::reaclick::oscillator::{advanced, retuned, Oscillator, Phase};
use crate::reaclick::render::{block_rendered, in_cycle, render_click};
use crate::reaclick::scheduler::{
    get_click, is_silent, is_sounding_beat, sounding_beat, sounds,
};
use crate::reaclick::transport::Transport;
use std::sync::{Arc, Mutex};
use vstd::prelude::*;

verus! {

/// What the host is told of a block.
#[derive(Debug, Clone, Copy, PartialEq, Eq, Structural)]
pub enum ProcessStatus {
    Normal,
    /// The engine itself is at fault; `code` is the error's code.
    Error { code: isize },
}

/// The click-track engine: an oscillator that runs on from block to block,
/// and the display state that it publishes.
pub struct ReaClick {
    display: Display,
    oscillator: Oscillator,
}

/// The playhead that a block's outcome has for the display.
pub open spec fn playhead_of(outcome: Result<Option<Playhead>, Error>) -> Option<Playhead> {
    match outcome {
        Ok(playhead) => playhead,
        Err(_) => None,
    }
}

/// The error that a block's outcome has for the display.
pub open spec fn error_of(outcome: Result<Option<Playhead>, Error>) -> Option<Error> {
    match outcome {
        Ok(_) => None,
        Err(e) => Some(e),
    }
}

/// What a block makes of the block's samples and of the oscillator, by
/// what was sampled: the click at the playhead where there is a playhead,
/// and nothing otherwise.
pub open spec fn block_processed<T, F: Fn(Phase) -> T>(
    before: Vec<Vec<T>>,
    after: Vec<Vec<T>>,
    start: Phase,
    end: Phase,
    outcome: Result<Option<Playhead>, Error>,
    frames: int,
    tone: F,
) -> bool {
    match outcome {
        Ok(Some(playhead)) => block_rendered(before, after, start, end, playhead, frames, tone),
        _ => after == before && end == start,
    }
}

/// The display state after a block of `samples` frames in `channels`
/// channels: the block's counts, playhead and error are new, what the host
/// said of its buffers stays.
pub open spec fn block_published(
    before: DisplayData,
    samples: usize,
    channels: usize,
    outcome: Result<Option<Playhead>, Error>,
) -> DisplayData {
    DisplayData {
        samples,
        channels,
        playhead: playhead_of(outcome),
        error: error_of(outcome),
        ..before
    }
}

/// Whether a block with this outcome of sampling renders a click: there is
/// a playhead, and a beat sounds at it.
pub open spec fn renders(outcome: Result<Option<Playhead>, Error>) -> bool {
    outcome matches Ok(Some(playhead)) && !is_silent(
        playhead.offset(),
        playhead.time_signature.top@,
    )
}

/// The status that a block ends with: normal, unless the display state
/// could not be published.
pub open spec fn status_of(publication: Result<(), Error>) -> ProcessStatus {
    match publication {
        Ok(_) => ProcessStatus::Normal,
        Err(e) => ProcessStatus::Error { code: e.spec_code() as isize },
    }
}

impl ReaClick {
    /// The display state that was published last.
    pub closed spec fn display(&self) -> DisplayData {
        self.display@
    }

    /// Where the oscillator stands.
    pub closed spec fn oscillator(&self) -> Phase {
        self.oscillator@
    }

    /// The cell into which the engine publishes its display state.
    pub closed spec fn display_cell(&self) -> Arc<Mutex<DisplayData>> {
        self.display.cell()
    }

    /// Whether the oscillator's phase is a fraction in [0, 1) and the sample
    /// rate is no lower than any click's pitch. An engine in tune stays in
    /// tune from block to block.
    pub open spec fn in_tune(&self) -> bool {
        in_cycle(self.oscillator()) && self.oscillator().denominator >= MAX_CLICK_FREQUENCY
    }

    /// Whether the oscillator can run through `frames` frames of any click
    /// with its phase numerator inside the range of `u64`. An engine in
    /// tune can, whatever the block's length; another can where its
    /// numerator has room for all that a block may add.
    pub open spec fn has_headroom(&self, frames: int) -> bool {
        ||| self.in_tune()
        ||| self.oscillator().numerator + frames * MAX_CLICK_FREQUENCY <= u64::MAX
    }

    pub fn new() -> (engine: ReaClick)
        ensures
            engine.display() == DisplayData::initial(),
            engine.oscillator() == (Phase { numerator: 0, denominator: 0 }),
    {
        ReaClick { display: Display::new(), oscillator: Oscillator::default() }
    }

    /// A reader of the display state for a visualization: it reads the
    /// cell into which the engine publishes.
    pub fn display_reader(&self) -> (reader: DisplayReader)
        ensures
            reader.cell() == self.display_cell(),
    {
        self.display.reader()
    }

    /// The display state that was published last.
    pub fn displayed(&self) -> (data: DisplayData)
        ensures
            data == self.display(),
    {
        self.display.read()
    }

    /// Where the oscillator stands.
    pub fn phase(&self) -> (phase: Phase)
        ensures
            phase == self.oscillator(),
    {
        self.oscillator.phase()
    }

    /// Tests whether a block of `frames` frames can be rendered.
    pub fn can_process(&self, frames: usize) -> (r: bool)
        ensures
            r == self.has_headroom(frames as int),
    {
        let phase = self.oscillator.phase();
        assert(frames * MAX_CLICK_FREQUENCY <= usize::MAX * 1600) by (nonlinear_arith)
            requires
                0 <= frames <= usize::MAX,
                MAX_CLICK_FREQUENCY == 1600,
        ;
        let in_tune = phase.numerator < phase.denominator as u64 && phase.denominator
            >= MAX_CLICK_FREQUENCY;
        in_tune || phase.numerator as u128 + frames as u128 * MAX_CLICK_FREQUENCY as u128
            <= u64::MAX as u128
    }

    /// Takes up the host's buffer configuration. The oscillator keeps its
    /// place in the cycle, and the display starts afresh.
    pub fn initialize(
        &mut self,
        sample_rate: u32,
        min_buffer_size: Option<u32>,
        max_buffer_size: u32,
    ) -> (ok: bool)
        ensures
            ok,
            final(self).oscillator().denominator == sample_rate,
            final(self).oscillator().numerator == retuned(
                old(self).oscillator().numerator as int,
                old(self).oscillator().denominator as int,
                sample_rate as int,
            ),
            final(self).display() == DisplayData::published(
                (Diagnostics {
                    sample_rate,
                    min_buffer_size,
                    max_buffer_size,
                    samples: 0,
                    channels: 0,
                }),
                None,
                None,
            ),
            sample_rate >= MAX_CLICK_FREQUENCY && (old(self).in_tune() || old(
                self,
            ).oscillator().denominator == 0) ==> final(self).in_tune(),
            final(self).display_cell() == old(self).display_cell(),
    {
        self.oscillator.set_sample_rate(sample_rate);
        let diagnostics = Diagnostics {
            sample_rate,
            min_buffer_size,
            max_buffer_size,
            samples: 0,
            channels: 0,
        };
        let _ = self.display.publish(diagnostics, None, None);
        true
    }

    /// Takes the playhead of this block from the host's transport.
    pub fn get_playhead(&self, transport: &Transport) -> (outcome: Result<Option<Playhead>, Error>)
        ensures
            outcome == transport.sampled(),
            outcome matches Ok(Some(playhead)) ==> transport.read_by(playhead),
    {
        transport.sample()
    }

    /// The next sample of a tone at `frequency`: `tone` at the oscillator's
    /// phase, which then moves on.
    pub fn calculate_sine<T, F: Fn(Phase) -> T>(&mut self, frequency: u32, tone: &F) -> (sine: T)
        requires
            old(self).oscillator().numerator + frequency <= u64::MAX,
            call_requires(*tone, (old(self).oscillator(),)),
        ensures
            call_ensures(*tone, (old(self).oscillator(),), sine),
            final(self).oscillator().denominator == old(self).oscillator().denominator,
            final(self).oscillator().numerator == advanced(
                old(self).oscillator().numerator as int,
                frequency as int,
                old(self).oscillator().denominator as int,
            ),
            final(self).display() == old(self).display(),
            final(self).display_cell() == old(self).display_cell(),
    {
        let phase = self.oscillator.next_sample(frequency);
        tone(phase)
    }

    /// Renders the click of the beat that sounds at `playhead`, if one
    /// does, through the whole block.
    pub fn write_samples<T: Copy, F: Fn(Phase) -> T>(
        &mut self,
        playhead: &Playhead,
        frames: usize,
        tone: &F,
        buffer: &mut Vec<Vec<T>>,
    )
        requires
            !is_silent(playhead.offset(), playhead.time_signature.top@) ==> old(
                self,
            ).has_headroom(frames as int),
            forall|phase: Phase| call_requires(*tone, (phase,)),
        ensures
            block_rendered(
                *old(buffer),
                *final(buffer),
                old(self).oscillator(),
                final(self).oscillator(),
                *playhead,
                frames as int,
                *tone,
            ),
            final(self).display() == old(self).display(),
            final(self).display_cell() == old(self).display_cell(),
            old(self).in_tune() ==> final(self).in_tune(),
    {
        match sounding_beat(playhead) {
            Some(i) => {
                let click = get_click(playhead.time_signature.top, i);
                assert(sounds(
                    playhead.offset(),
                    playhead.time_signature.top@,
                    i as int,
                ));
                assert(frames * click.frequency <= frames * MAX_CLICK_FREQUENCY)
                    by (nonlinear_arith)
                    requires
                        click.frequency <= MAX_CLICK_FREQUENCY,
                        frames >= 0,
                ;
                render_click(&mut self.oscillator, click, frames, tone, buffer);
                proof {
                    let offset = playhead.offset();
                    let top = playhead.time_signature.top@;
                    assert forall|index: int| #[trigger]
                        is_sounding_beat(offset, top, index) implies index == i by {
                        if index < i {
                            assert(sounds(offset, top, index));
                        } else if i < index {
                            assert(sounds(offset, top, i as int));
                        }
                    }
                }
            },
            None => {},
        }
    }

    /// Samples the transport and, where the host plays, renders the block.
    pub fn process_inner<T: Copy, F: Fn(Phase) -> T>(
        &mut self,
        transport: &Transport,
        frames: usize,
        tone: &F,
        buffer: &mut Vec<Vec<T>>,
    ) -> (outcome: Result<Option<Playhead>, Error>)
        requires
            renders(transport.sampled()) ==> old(self).has_headroom(frames as int),
            forall|phase: Phase| call_requires(*tone, (phase,)),
        ensures
            outcome == transport.sampled(),
            block_processed(
                *old(buffer),
                *final(buffer),
                old(self).oscillator(),
                final(self).oscillator(),
                outcome,
                frames as int,
                *tone,
            ),
            final(self).display() == old(self).display(),
            final(self).display_cell() == old(self).display_cell(),
            old(self).in_tune() ==> final(self).in_tune(),
    {
        let playhead = self.get_playhead(transport)?;

        if let Some(ref playhead) = playhead {
            self.write_samples(playhead, frames, tone, buffer);
        }

        Ok(playhead)
    }

    /// Publishes the outcome of a block of `samples` frames in `channels`
    /// channels, where a visualization is open to see it.
    pub fn update_display(
        &mut self,
        editor_open: bool,
        samples: usize,
        channels: usize,
        result: Result<Option<Playhead>, Error>,
    ) -> (publication: Result<(), Error>)
        ensures
            final(self).display() == if editor_open {
                block_published(old(self).display(), samples, channels, result)
            } else {
                old(self).display()
            },
            final(self).oscillator() == old(self).oscillator(),
            final(self).display_cell() == old(self).display_cell(),
            published_or_unavailable(publication),
            !editor_open ==> publication is Ok,
    {
        if editor_open {
            let before = self.display.read();
            let diagnostics = Diagnostics {
                sample_rate: before.sample_rate,
                min_buffer_size: before.min_buffer_size,
                max_buffer_size: before.max_buffer_size,
                samples,
                channels,
            };
            match result {
                Ok(playhead) => self.display.publish(diagnostics, playhead, None),
                Err(e) => self.display.publish(diagnostics, None, Some(e)),
            }
        } else {
            Ok(())
        }
    }

    /// Processes one block: samples the transport, renders the click that
    /// sounds at the playhead, and publishes the outcome where a
    /// visualization is open. A fault of the transport leaves the block
    /// silent and is shown on the display; the status is an error only
    /// where the display state itself could not be published.
    pub fn process<T: Copy, F: Fn(Phase) -> T>(
        &mut self,
        transport: &Transport,
        frames: usize,
        tone: &F,
        buffer: &mut Vec<Vec<T>>,
        editor_open: bool,
    ) -> (status: ProcessStatus)
        requires
            renders(transport.sampled()) ==> old(self).has_headroom(frames as int),
            forall|phase: Phase| call_requires(*tone, (phase,)),
        ensures
            block_processed(
                *old(buffer),
                *final(buffer),
                old(self).oscillator(),
                final(self).oscillator(),
                transport.sampled(),
                frames as int,
                *tone,
            ),
            final(self).display() == if editor_open {
                block_published(
                    old(self).display(),
                    frames,
                    old(buffer)@.len() as usize,
                    transport.sampled(),
                )
            } else {
                old(self).display()
            },
            status == ProcessStatus::Normal || (editor_open && status == status_of(
                Err(Error::DisplayStateUnavailable),
            )),
            !transport.playing ==> *final(buffer) == *old(buffer) && final(self).oscillator()
                == old(self).oscillator() && (editor_open ==> final(self).display().playhead
                is None && final(self).display().error is None),
            old(self).in_tune() ==> final(self).in_tune(),
            final(self).display_cell() == old(self).display_cell(),
    {
        let channels = buffer.len();
        let result = self.process_inner(transport, frames, tone, buffer);
        let publication = self.update_display(editor_open, frames, channels, result);
        Self::status(publication)
    }

    /// The status that a block ends with, by how publishing went.
    pub fn status(publication: Result<(), Error>) -> (status: ProcessStatus)
        ensures
            status == status_of(publication),
    {
        match publication {
            Ok(_) => ProcessStatus::Normal,
            Err(e) => ProcessStatus::Error { code: e.code() },
        }
    }
}

impl Default for ReaClick {
    fn default() -> (engine: Self)
        ensures
            engine.display() == DisplayData::initial(),
            engine.oscillator() == (Phase { numerator: 0, denominator: 0 }),
    {
        ReaClick::new()
    }
}

} // verus!
