use crate::error::Error;
use crate::music_theory::{TimeSignatureBottom, TimeSignatureTop};
use crate::reaclick::data::Playhead;
use crate::result::GetOrError;
use std::sync::{Arc, Mutex, TryLockError};
use vstd::prelude::*;

verus! {

/// What the host said of its buffers, and what the last block held.
#[derive(Debug, Clone, Copy, PartialEq, Eq, Structural)]
pub struct Diagnostics {
    pub sample_rate: u32,
    pub min_buffer_size: Option<u32>,
    pub max_buffer_size: u32,
    pub samples: usize,
    pub channels: usize,
}

/// One whole display state: the diagnostics, the playhead of the block
/// that was published last (absent while the host does not play), and the
/// error of that block, if it had one.
#[derive(Debug, Clone, Copy, PartialEq, Eq, Structural)]
pub struct DisplayData {
    pub sample_rate: u32,
    pub min_buffer_size: Option<u32>,
    pub max_buffer_size: u32,
    pub samples: usize,
    pub channels: usize,
    pub playhead: Option<Playhead>,
    pub error: Option<Error>,
}

/// How a write into the shared cell went.
#[derive(Debug, Clone, Copy, PartialEq, Eq, Structural)]
pub enum StoreOutcome {
    /// The record is in the cell.
    Written,
    /// A reader held the cell; the record was let go rather than waited
    /// with.
    Busy,
    /// An earlier holder of the cell panicked; the cell is given up.
    Poisoned,
}

/// `Mutex::try_lock`, which never waits, then a write of the whole record
/// through the guard. The result tells the three ways that `try_lock` can
/// end apart. Nothing is claimed of it: which one comes depends on the
/// other threads.
#[verifier::external_body]
fn store(cell: &Mutex<DisplayData>, data: DisplayData) -> (outcome: StoreOutcome) {
    match cell.try_lock() {
        Ok(mut guard) => {
            *guard = data;
            StoreOutcome::Written
        },
        Err(TryLockError::WouldBlock) => StoreOutcome::Busy,
        Err(TryLockError::Poisoned(_)) => StoreOutcome::Poisoned,
    }
}

/// `Arc::clone`, which gives another pointer to the same allocation: the
/// result is the very cell that was handed in.
#[verifier::external_body]
fn share(cell: &Arc<Mutex<DisplayData>>) -> (shared: Arc<Mutex<DisplayData>>)
    ensures
        shared == *cell,
{
    Arc::clone(cell)
}

/// `Mutex::lock`, then a copy of the whole record through the guard, or
/// `None` where an earlier holder of the cell panicked. Nothing is claimed
/// of the record: it is the one that was stored last, by whichever thread.
#[verifier::external_body]
fn load(cell: &Mutex<DisplayData>) -> (data: Option<DisplayData>) {
    match cell.lock() {
        Ok(guard) => Some(*guard),
        Err(_) => None,
    }
}

/// The code under which an error, or its absence, is shown.
pub open spec fn error_code_of(error: Option<Error>) -> int {
    match error {
        Some(e) => e.spec_code(),
        None => 0,
    }
}

impl DisplayData {
    /// The state before anything was published.
    pub open spec fn initial() -> DisplayData {
        DisplayData {
            sample_rate: 0,
            min_buffer_size: None,
            max_buffer_size: 0,
            samples: 0,
            channels: 0,
            playhead: None,
            error: None,
        }
    }

    /// The record that publishing `diagnostics`, `playhead` and `error`
    /// writes: every field is new.
    pub open spec fn published(
        diagnostics: Diagnostics,
        playhead: Option<Playhead>,
        error: Option<Error>,
    ) -> DisplayData {
        DisplayData {
            sample_rate: diagnostics.sample_rate,
            min_buffer_size: diagnostics.min_buffer_size,
            max_buffer_size: diagnostics.max_buffer_size,
            samples: diagnostics.samples,
            channels: diagnostics.channels,
            playhead,
            error,
        }
    }

    /// The record after a block's outcome is noted: playhead and error are
    /// new, the diagnostics stay.
    pub open spec fn updated(self, error: Option<Error>, playhead: Option<Playhead>) -> DisplayData {
        DisplayData { playhead, error, ..self }
    }

    pub fn diagnostics(&self) -> (diagnostics: Diagnostics)
        ensures
            DisplayData::published(diagnostics, self.playhead, self.error) == *self,
    {
        Diagnostics {
            sample_rate: self.sample_rate,
            min_buffer_size: self.min_buffer_size,
            max_buffer_size: self.max_buffer_size,
            samples: self.samples,
            channels: self.channels,
        }
    }
}

impl Default for DisplayData {
    fn default() -> (data: Self)
        ensures
            data == DisplayData::initial(),
    {
        DisplayData {
            sample_rate: 0,
            min_buffer_size: None,
            max_buffer_size: 0,
            samples: 0,
            channels: 0,
            playhead: None,
            error: None,
        }
    }
}

/// The publisher of the display state: the one writer of the cell that it
/// shares with its readers. It keeps the record that it published last,
/// and writes each record whole into the cell, without ever waiting for a
/// reader.
pub struct Display {
    latest: DisplayData,
    shared: Arc<Mutex<DisplayData>>,
}

/// A reader of the display state, for a thread other than the publisher's.
/// It can read the shared cell and do nothing else to it, and it holds the
/// cell no longer than it takes to copy one record.
#[derive(Debug, Clone)]
pub struct DisplayReader {
    shared: Arc<Mutex<DisplayData>>,
}

impl View for Display {
    type V = DisplayData;

    closed spec fn view(&self) -> DisplayData {
        self.latest
    }
}

/// What publishing may give: success, or the one error that says the
/// shared cell is given up.
pub open spec fn published_or_unavailable(outcome: Result<(), Error>) -> bool {
    outcome matches Err(e) ==> e == Error::DisplayStateUnavailable
}

/// What a write into the shared cell comes to. A record that was let go
/// because a reader held the cell is no fault: the reader sees an earlier
/// record, and the next block publishes anew.
pub open spec fn publication_of(outcome: StoreOutcome) -> Result<(), Error> {
    match outcome {
        StoreOutcome::Written => Ok(()),
        StoreOutcome::Busy => Ok(()),
        StoreOutcome::Poisoned => Err(Error::DisplayStateUnavailable),
    }
}

/// What reading the shared cell gives for each thing that the lock hands
/// out: the record, or the error that says the cell is given up.
pub open spec fn snapshot_of(loaded: Option<DisplayData>) -> Result<DisplayData, Error> {
    match loaded {
        Some(data) => Ok(data),
        None => Err(Error::DisplayStateUnavailable),
    }
}

impl Display {
    /// The cell into which this display publishes, and which it shares
    /// with its readers.
    pub closed spec fn cell(&self) -> Arc<Mutex<DisplayData>> {
        self.shared
    }

    pub fn new() -> (display: Display)
        ensures
            display@ == DisplayData::initial(),
    {
        let latest = DisplayData::default();
        Display { latest, shared: Arc::new(Mutex::new(latest)) }
    }

    /// A reader for another thread of what is published here: it reads
    /// the cell into which this display publishes.
    pub fn reader(&self) -> (reader: DisplayReader)
        ensures
            reader.cell() == self.cell(),
    {
        DisplayReader { shared: share(&self.shared) }
    }

    /// Publishes a whole new record.
    pub fn publish(
        &mut self,
        diagnostics: Diagnostics,
        playhead: Option<Playhead>,
        error: Option<Error>,
    ) -> (outcome: Result<(), Error>)
        ensures
            final(self)@ == DisplayData::published(diagnostics, playhead, error),
            final(self).cell() == old(self).cell(),
            published_or_unavailable(outcome),
    {
        self.latest = DisplayData {
            sample_rate: diagnostics.sample_rate,
            min_buffer_size: diagnostics.min_buffer_size,
            max_buffer_size: diagnostics.max_buffer_size,
            samples: diagnostics.samples,
            channels: diagnostics.channels,
            playhead,
            error,
        };
        Self::stored(store(&self.shared, self.latest))
    }

    /// Publishes the outcome of a block: its playhead, absent where the
    /// host does not play, and its error, if it had one. The diagnostics
    /// stay as they were.
    pub fn update(&mut self, error: Option<Error>, playhead: &Option<Playhead>) -> (outcome: Result<
        (),
        Error,
    >)
        ensures
            final(self)@ == old(self)@.updated(error, *playhead),
            final(self).cell() == old(self).cell(),
            published_or_unavailable(outcome),
    {
        self.latest.playhead = *playhead;
        self.latest.error = error;
        Self::stored(store(&self.shared, self.latest))
    }

    /// What a write into the shared cell comes to, by how it went.
    pub fn stored(outcome: StoreOutcome) -> (publication: Result<(), Error>)
        ensures
            publication == publication_of(outcome),
    {
        match outcome {
            StoreOutcome::Written => Ok(()),
            StoreOutcome::Busy => Ok(()),
            StoreOutcome::Poisoned => Err(Error::DisplayStateUnavailable),
        }
    }

    /// The record that was published last, whole.
    pub fn read(&self) -> (data: DisplayData)
        ensures
            data == self@,
    {
        self.latest
    }

    pub fn error_code(&self) -> (code: isize)
        ensures
            code == error_code_of(self@.error),
    {
        match self.latest.error {
            Some(e) => e.code(),
            None => 0,
        }
    }

    pub fn is_playing(&self) -> (playing: bool)
        ensures
            playing == self@.playhead is Some,
    {
        self.latest.playhead.is_some()
    }

    pub fn tempo(&self) -> (tempo: Option<u32>)
        ensures
            tempo == match self@.playhead {
                Some(playhead) => Some(playhead.tempo),
                None => None,
            },
    {
        match self.latest.playhead {
            Some(playhead) => Some(playhead.tempo),
            None => None,
        }
    }

    pub fn bar_number(&self) -> (bar_number: Option<i32>)
        ensures
            bar_number == match self@.playhead {
                Some(playhead) => Some(playhead.bar_number),
                None => None,
            },
    {
        match self.latest.playhead {
            Some(playhead) => Some(playhead.bar_number),
            None => None,
        }
    }

    pub fn bar_start_pos_crotchets(&self) -> (ticks: Option<i64>)
        ensures
            ticks == match self@.playhead {
                Some(playhead) => Some(playhead.bar_start_pos_crotchets),
                None => None,
            },
    {
        match self.latest.playhead {
            Some(playhead) => Some(playhead.bar_start_pos_crotchets),
            None => None,
        }
    }

    pub fn pos_crotchets(&self) -> (ticks: Option<i64>)
        ensures
            ticks == match self@.playhead {
                Some(playhead) => Some(playhead.pos_crotchets),
                None => None,
            },
    {
        match self.latest.playhead {
            Some(playhead) => Some(playhead.pos_crotchets),
            None => None,
        }
    }

    pub fn time_signature_top(&self) -> (top: Option<TimeSignatureTop>)
        ensures
            top == match self@.playhead {
                Some(playhead) => Some(playhead.time_signature.top),
                None => None,
            },
    {
        match self.latest.playhead {
            Some(playhead) => Some(playhead.time_signature.top),
            None => None,
        }
    }

    pub fn time_signature_bottom(&self) -> (bottom: Option<TimeSignatureBottom>)
        ensures
            bottom == match self@.playhead {
                Some(playhead) => Some(playhead.time_signature.bottom),
                None => None,
            },
    {
        match self.latest.playhead {
            Some(playhead) => Some(playhead.time_signature.bottom),
            None => None,
        }
    }
}

impl Default for Display {
    fn default() -> (display: Self)
        ensures
            display@ == DisplayData::initial(),
    {
        Display::new()
    }
}

impl DisplayReader {
    /// The cell that this reader reads.
    pub closed spec fn cell(&self) -> Arc<Mutex<DisplayData>> {
        self.shared
    }

    /// Reads the shared cell: one whole record, never parts of two.
    pub fn read(&self) -> (snapshot: Result<DisplayData, Error>)
        ensures
            snapshot matches Err(e) ==> e == Error::DisplayStateUnavailable,
    {
        Self::snapshot(load(&self.shared))
    }

    /// What reading the shared cell comes to, by what the lock handed out.
    pub fn snapshot(loaded: Option<DisplayData>) -> (snapshot: Result<DisplayData, Error>)
        ensures
            snapshot == snapshot_of(loaded),
    {
        loaded.get_or_error(Error::DisplayStateUnavailable)
    }
}

/// One access to the display state: a record is published, or the state is
/// read.
pub enum Access {
    Publish { diagnostics: Diagnostics, playhead: Option<Playhead>, error: Option<Error> },
    Read,
}

/// The record that the display holds after the first `count` of
/// `accesses`, taken one by one: a publish puts its record in the place of
/// all that was there, a read leaves it.
pub open spec fn held_after(initial: DisplayData, accesses: Seq<Access>, count: nat) -> DisplayData
    decreases count,
{
    if count == 0 {
        initial
    } else {
        match accesses[count - 1] {
            Access::Publish { diagnostics, playhead, error } => DisplayData::published(
                diagnostics,
                playhead,
                error,
            ),
            Access::Read => held_after(initial, accesses, (count - 1) as nat),
        }
    }
}

/// Whether the record `data` is that of the publish at place `at`, and
/// only reads lie between it and place `count`.
pub open spec fn is_latest_publish(
    accesses: Seq<Access>,
    count: nat,
    at: int,
    data: DisplayData,
) -> bool {
    &&& 0 <= at < count
    &&& accesses[at] matches Access::Publish { diagnostics, playhead, error }
    &&& data == DisplayData::published(diagnostics, playhead, error)
    &&& forall|later: int| at < later < count ==> #[trigger] accesses[later] is Read
}

/// However publishes and reads follow one another, a read sees one record
/// whole: the record of the latest publish before it, every field from
/// that one publish, or the initial state where nothing was published
/// before it.
pub proof fn lemma_read_sees_one_record(initial: DisplayData, accesses: Seq<Access>, count: nat)
    requires
        count <= accesses.len(),
    ensures
        ({
            let seen = held_after(initial, accesses, count);
            ||| seen == initial && forall|earlier: int|
                0 <= earlier < count ==> #[trigger] accesses[earlier] is Read
            ||| exists|at: int| #[trigger] is_latest_publish(accesses, count, at, seen)
        }),
    decreases count,
{
    if count > 0 {
        let seen = held_after(initial, accesses, count);
        match accesses[count - 1] {
            Access::Publish { .. } => {
                assert(is_latest_publish(accesses, count, count - 1, seen));
            },
            Access::Read => {
                lemma_read_sees_one_record(initial, accesses, (count - 1) as nat);
                if exists|at: int| #[trigger]
                    is_latest_publish(accesses, (count - 1) as nat, at, seen) {
                    let at = choose|at: int| #[trigger]
                        is_latest_publish(accesses, (count - 1) as nat, at, seen);
                    assert(is_latest_publish(accesses, count, at, seen));
                }
            },
        }
    }
}

} // verus!
