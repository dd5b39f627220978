use vstd::arithmetic::div_mod::{
    lemma_add_mod_noop, lemma_mod_self_0, lemma_mod_sub_multiples_vanish, lemma_small_mod,
};
use vstd::prelude::*;

verus! {

/// A point in the oscillator's cycle: `numerator / denominator` of one turn.
/// The tone's sample at that point is the sine of that many turns.
#[derive(Debug, Clone, Copy, PartialEq, Eq, Structural)]
pub struct Phase {
    pub numerator: u64,
    pub denominator: u32,
}

/// The phase numerator after one sample at `frequency`: the frequency is
/// added, and one turn (`sample_rate`) is taken off where that is reached.
pub open spec fn advanced(phase: int, frequency: int, sample_rate: int) -> int {
    if phase + frequency >= sample_rate {
        phase + frequency - sample_rate
    } else {
        phase + frequency
    }
}

/// The phase numerator after `calls` samples at one frequency.
pub open spec fn phase_after(phase: int, frequency: int, sample_rate: int, calls: nat) -> int
    decreases calls,
{
    if calls == 0 {
        phase
    } else {
        advanced(
            phase_after(phase, frequency, sample_rate, (calls - 1) as nat),
            frequency,
            sample_rate,
        )
    }
}

/// Whether `phase / sample_rate` is a fraction in [0, 1).
pub open spec fn in_unit_interval(phase: int, sample_rate: int) -> bool {
    0 <= phase < sample_rate
}

/// The numerator that stands at `new_rate` for the fraction
/// `phase / old_rate`. A phase outside [0, 1) has no counterpart at another
/// rate and starts again at 0.
pub open spec fn retuned(phase: int, old_rate: int, new_rate: int) -> int {
    if old_rate == new_rate {
        phase
    } else if in_unit_interval(phase, old_rate) {
        phase * new_rate / old_rate
    } else {
        0
    }
}

/// One sample never moves the phase by more than the frequency.
pub proof fn lemma_phase_after_bound(phase: int, frequency: int, sample_rate: int, calls: nat)
    requires
        0 <= phase,
        0 <= frequency,
        0 <= sample_rate,
    ensures
        0 <= phase_after(phase, frequency, sample_rate, calls) <= phase + calls * frequency,
    decreases calls,
{
    if calls > 0 {
        lemma_phase_after_bound(phase, frequency, sample_rate, (calls - 1) as nat);
        assert(calls * frequency == (calls - 1) * frequency + frequency) by (nonlinear_arith);
    }
}

/// The phase numerator after one sample at each of `frequencies`, in turn.
pub open spec fn phase_through(phase: int, frequencies: Seq<int>, sample_rate: int) -> int
    decreases frequencies.len(),
{
    if frequencies.len() == 0 {
        phase
    } else {
        advanced(
            phase_through(phase, frequencies.drop_last(), sample_rate),
            frequencies.last(),
            sample_rate,
        )
    }
}

/// A phase that starts inside [0, 1) is inside [0, 1) after every sample,
/// whatever frequencies follow one another, so long as none is above the
/// sample rate.
pub proof fn lemma_phase_stays_in_unit_interval(
    phase: int,
    frequencies: Seq<int>,
    sample_rate: int,
)
    requires
        in_unit_interval(phase, sample_rate),
        forall|i: int| 0 <= i < frequencies.len() ==> 0 <= #[trigger] frequencies[i] <= sample_rate,
    ensures
        in_unit_interval(phase_through(phase, frequencies, sample_rate), sample_rate),
    decreases frequencies.len(),
{
    if frequencies.len() > 0 {
        lemma_phase_stays_in_unit_interval(phase, frequencies.drop_last(), sample_rate);
    }
}

/// Samples at one frequency are a run of that frequency.
pub proof fn lemma_phase_after_is_phase_through(
    phase: int,
    frequency: int,
    sample_rate: int,
    calls: nat,
)
    ensures
        phase_after(phase, frequency, sample_rate, calls) == phase_through(
            phase,
            Seq::new(calls, |i: int| frequency),
            sample_rate,
        ),
    decreases calls,
{
    if calls > 0 {
        let run = Seq::new(calls, |i: int| frequency);
        let shorter = Seq::new((calls - 1) as nat, |i: int| frequency);
        assert(run.drop_last() =~= shorter);
        lemma_phase_after_is_phase_through(phase, frequency, sample_rate, (calls - 1) as nat);
    }
}

/// After `calls` samples at one frequency up to the sample rate, a phase
/// that started inside [0, 1) is the fractional part of all that was
/// added: `(phase + calls * frequency) mod sample_rate`.
pub proof fn lemma_phase_after_is_fractional_part(
    phase: int,
    frequency: int,
    sample_rate: int,
    calls: nat,
)
    requires
        in_unit_interval(phase, sample_rate),
        0 <= frequency <= sample_rate,
    ensures
        in_unit_interval(phase_after(phase, frequency, sample_rate, calls), sample_rate),
        phase_after(phase, frequency, sample_rate, calls) == (phase + calls * frequency)
            % sample_rate,
    decreases calls,
{
    if calls == 0 {
        assert(calls * frequency == 0) by (nonlinear_arith)
            requires
                calls == 0,
        ;
        lemma_small_mod(phase as nat, sample_rate as nat);
    } else {
        let before = phase_after(phase, frequency, sample_rate, (calls - 1) as nat);
        let total = phase + (calls - 1) * frequency;
        lemma_phase_after_is_fractional_part(phase, frequency, sample_rate, (calls - 1) as nat);
        assert(phase + calls * frequency == total + frequency) by (nonlinear_arith)
            requires
                total == phase + (calls - 1) * frequency,
        ;
        lemma_add_mod_noop(total, frequency, sample_rate);
        if frequency == sample_rate {
            lemma_mod_self_0(sample_rate);
            lemma_small_mod(before as nat, sample_rate as nat);
        } else {
            lemma_small_mod(frequency as nat, sample_rate as nat);
            if before + frequency < sample_rate {
                lemma_small_mod((before + frequency) as nat, sample_rate as nat);
            } else {
                lemma_mod_minus_one_turn(before + frequency, sample_rate);
            }
        }
    }
}

proof fn lemma_mod_minus_one_turn(x: int, m: int)
    requires
        0 < m <= x < 2 * m,
    ensures
        x % m == x - m,
{
    lemma_small_mod((x - m) as nat, m as nat);
    lemma_mod_sub_multiples_vanish(x, m);
}

/// A continuous-phase tone generator. It keeps its place in the cycle, as a
/// numerator over the sample rate, from one sample to the next and from one
/// block to the next.
#[derive(Debug, Clone, Copy)]
pub struct Oscillator {
    phase: u64,
    sample_rate: u32,
}

impl View for Oscillator {
    type V = Phase;

    closed spec fn view(&self) -> Phase {
        Phase { numerator: self.phase, denominator: self.sample_rate }
    }
}

impl Oscillator {
    /// Whether the phase is a fraction in [0, 1).
    pub open spec fn in_cycle(&self) -> bool {
        in_unit_interval(self@.numerator as int, self@.denominator as int)
    }

    /// An oscillator at the start of its cycle.
    pub fn new(sample_rate: u32) -> (oscillator: Self)
        ensures
            oscillator@ == (Phase { numerator: 0, denominator: sample_rate }),
            sample_rate > 0 ==> oscillator.in_cycle(),
    {
        Oscillator { phase: 0, sample_rate }
    }

    pub fn phase(&self) -> (phase: Phase)
        ensures
            phase == self@,
    {
        Phase { numerator: self.phase, denominator: self.sample_rate }
    }

    pub fn sample_rate(&self) -> (sample_rate: u32)
        ensures
            sample_rate == self@.denominator,
    {
        self.sample_rate
    }

    /// Moves the oscillator to another sample rate and keeps its place in the
    /// cycle, rounded down to the new rate's grid.
    pub fn set_sample_rate(&mut self, sample_rate: u32)
        ensures
            final(self)@.denominator == sample_rate,
            final(self)@.numerator == retuned(
                old(self)@.numerator as int,
                old(self)@.denominator as int,
                sample_rate as int,
            ),
            old(self).in_cycle() && sample_rate > 0 ==> final(self).in_cycle(),
    {
        if self.sample_rate != sample_rate {
            if self.phase < self.sample_rate as u64 {
                assert(self.phase * sample_rate <= u128::MAX) by (nonlinear_arith)
                    requires
                        self.phase <= u64::MAX,
                        sample_rate <= u32::MAX,
                ;
                let scaled: u128 = self.phase as u128 * sample_rate as u128;
                let old_rate: u128 = self.sample_rate as u128;
                assert(scaled / old_rate <= sample_rate && (sample_rate > 0 ==> scaled / old_rate
                    < sample_rate)) by (nonlinear_arith)
                    requires
                        scaled == self.phase * sample_rate,
                        self.phase < old_rate,
                ;
                self.phase = (scaled / old_rate) as u64;
            } else {
                self.phase = 0;
            }
            self.sample_rate = sample_rate;
        }
    }

    /// Gives the point of the cycle at which the next sample is taken, and
    /// moves on by `frequency / sample_rate` of a turn.
    pub fn next_sample(&mut self, frequency: u32) -> (phase: Phase)
        requires
            old(self)@.numerator + frequency <= u64::MAX,
        ensures
            phase == old(self)@,
            final(self)@.denominator == old(self)@.denominator,
            final(self)@.numerator == advanced(
                old(self)@.numerator as int,
                frequency as int,
                old(self)@.denominator as int,
            ),
            old(self).in_cycle() && frequency <= old(self)@.denominator ==> final(self).in_cycle(),
    {
        let phase = Phase { numerator: self.phase, denominator: self.sample_rate };
        let mut next: u64 = self.phase + frequency as u64;
        if next >= self.sample_rate as u64 {
            next = next - self.sample_rate as u64;
        }
        self.phase = next;
        phase
    }
}

impl Default for Oscillator {
    fn default() -> (oscillator: Self)
        ensures
            oscillator@ == (Phase { numerator: 0, denominator: 0 }),
    {
        Oscillator { phase: 0, sample_rate: 0 }
    }
}

} // verus!
