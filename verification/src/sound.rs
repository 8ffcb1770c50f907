//! The sample store and the mixing step that plays it.

use vstd::prelude::*;
use crate::control::Control;
use crate::ring::{
    lemma_next_slot,
    lemma_same_slot,
    lemma_written_reads_back,
    lemma_written_step,
    written,
};
use crate::sample::{Sample, OUTPUT_BIAS};

verus! {

/// What a sample store holds, as mathematics.
pub struct SoundState<S> {
    /// The circular sample buffer. Its length is fixed when the store is
    /// made.
    pub buffer: Seq<S>,
    /// The volume level. Levels above 7 sound like level 7.
    pub volume: u16,
    /// Whether the output is forced to silence.
    pub mute: bool,
    /// The playback cursor: the number of samples mixed so far.
    pub current: nat,
    /// The number of output periods completed so far.
    pub called: nat,
}

impl<S: Sample> SoundState<S> {
    /// Whether anything but silence can be heard: the store is not muted,
    /// its volume is not zero, and it has a buffer to read from.
    pub open spec fn audible(self) -> bool {
        !self.mute && self.volume != 0 && self.buffer.len() > 0
    }

    /// The output code of the sample mixed when the cursor stands at
    /// `position`: the output bias when the store is not audible, else the
    /// output bias plus the gained deviation of the buffer's sample at
    /// `position` modulo the buffer's length.
    pub open spec fn output_at(self, position: int) -> int {
        if self.audible() {
            let raw = self.buffer[position % (self.buffer.len() as int)];
            OUTPUT_BIAS + S::gain(raw.code() - S::bias(), self.volume)
        } else {
            OUTPUT_BIAS as int
        }
    }

    /// The state after one output period of `produced` samples: the cursor
    /// has moved by `produced`, one more period is counted, and nothing else
    /// has changed.
    pub open spec fn after_period(self, produced: nat) -> Self {
        SoundState {
            current: self.current + produced,
            called: self.called + 1,
            ..self
        }
    }

    /// The state after the output periods of the sizes in `periods`, one
    /// after the other.
    pub open spec fn after_periods(self, periods: Seq<nat>) -> Self
        decreases periods.len(),
    {
        if periods.len() == 0 {
            self
        } else {
            self.after_periods(periods.drop_last()).after_period(periods.last())
        }
    }

    /// The state after `samples` were written at `offset`: the buffer holds
    /// them, wrapped, and nothing else has changed.
    pub open spec fn with_data(self, offset: int, samples: Seq<S>) -> Self {
        SoundState { buffer: written(self.buffer, offset, samples), ..self }
    }
}

/// The number of samples in periods of the given sizes.
pub open spec fn total(periods: Seq<nat>) -> nat
    decreases periods.len(),
{
    if periods.len() == 0 {
        0
    } else {
        total(periods.drop_last()) + periods.last()
    }
}

/// A store that is muted, or whose volume is zero, gives the output bias at
/// every position, whatever its buffer holds.
pub proof fn lemma_silent_output<S: Sample>(state: SoundState<S>, position: int)
    requires
        state.mute || state.volume == 0,
    ensures
        state.output_at(position) == OUTPUT_BIAS,
{
}

/// Over any number of output periods the cursor moves by exactly the number
/// of samples produced and the period count by exactly the number of
/// periods; the buffer, the volume and the mute flag stay.
pub proof fn lemma_counters_keep_step<S: Sample>(state: SoundState<S>, periods: Seq<nat>)
    ensures
        state.after_periods(periods).current == state.current + total(periods),
        state.after_periods(periods).called == state.called + periods.len(),
        state.after_periods(periods).buffer == state.buffer,
        state.after_periods(periods).volume == state.volume,
        state.after_periods(periods).mute == state.mute,
    decreases periods.len(),
{
    if periods.len() > 0 {
        lemma_counters_keep_step(state, periods.drop_last());
    }
}

/// A pattern as long as the buffer, written at `offset` into a store whose
/// cursor stands at that slot, is what the next `buffer.len()` samples are
/// mixed from, in order: while the store is audible, sample `i` of the
/// period is the output bias plus the gained deviation of `pattern[i]`.
pub proof fn lemma_pattern_plays_back<S: Sample>(
    state: SoundState<S>,
    offset: int,
    pattern: Seq<S>,
    i: int,
)
    requires
        0 < state.buffer.len() == pattern.len(),
        (state.current as int) % (state.buffer.len() as int) == offset % (state.buffer.len() as int),
        !state.mute,
        state.volume != 0,
        0 <= i < pattern.len(),
    ensures
        state.with_data(offset, pattern).output_at(state.current + i) == OUTPUT_BIAS + S::gain(
            pattern[i].code() - S::bias(),
            state.volume,
        ),
{
    let size = state.buffer.len() as int;
    lemma_written_reads_back(state.buffer, offset, pattern, i);
    lemma_same_slot(state.current as int, offset, i, size);
}

/// At the top level a 16-bit pattern written over the whole buffer plays
/// back as it was written.
pub proof fn lemma_pattern_plays_back16(
    state: SoundState<u16>,
    offset: int,
    pattern: Seq<u16>,
    i: int,
)
    requires
        0 < state.buffer.len() == pattern.len(),
        (state.current as int) % (state.buffer.len() as int) == offset % (state.buffer.len() as int),
        !state.mute,
        7 <= state.volume,
        0 <= i < pattern.len(),
    ensures
        state.with_data(offset, pattern).output_at(state.current + i) == pattern[i],
{
    lemma_pattern_plays_back(state, offset, pattern, i);
}

/// At the top level an 8-bit pattern written over the whole buffer plays
/// back with each code in the high byte of the output.
pub proof fn lemma_pattern_plays_back8(
    state: SoundState<u8>,
    offset: int,
    pattern: Seq<u8>,
    i: int,
)
    requires
        0 < state.buffer.len() == pattern.len(),
        (state.current as int) % (state.buffer.len() as int) == offset % (state.buffer.len() as int),
        !state.mute,
        7 <= state.volume,
        0 <= i < pattern.len(),
    ensures
        state.with_data(offset, pattern).output_at(state.current + i) == pattern[i] * 256,
{
    lemma_pattern_plays_back(state, offset, pattern, i);
}

/// A sample store: a circular buffer of unsigned samples with a playback
/// cursor, a volume level and a mute flag.
pub struct Sound<S: Sample> {
    buffer: Vec<S>,
    buf_size: usize,
    volume: u16,
    mute: bool,
    current: usize,
    called: usize,
}

impl<S: Sample> View for Sound<S> {
    type V = SoundState<S>;

    closed spec fn view(&self) -> SoundState<S> {
        SoundState {
            buffer: self.buffer@,
            volume: self.volume,
            mute: self.mute,
            current: self.current as nat,
            called: self.called as nat,
        }
    }
}

impl<S: Sample> Sound<S> {
    #[verifier::type_invariant]
    spec fn well_formed(self) -> bool {
        self.buf_size == self.buffer@.len()
    }

    /// A store of `len` samples, each of zero amplitude, with volume 0, not
    /// muted, and both counters at zero.
    pub fn new(len: usize) -> (sound: Self)
        ensures
            sound@.buffer.len() == len,
            forall|i: int| 0 <= i < len ==> (#[trigger] sound@.buffer[i]).code() == S::bias(),
            sound@.volume == 0,
            !sound@.mute,
            sound@.current == 0,
            sound@.called == 0,
    {
        let mut buffer: Vec<S> = Vec::new();
        let mut filled: usize = 0;
        while filled < len
            invariant
                filled <= len,
                buffer@.len() == filled,
                forall|i: int| 0 <= i < filled ==> (#[trigger] buffer@[i]).code() == S::bias(),
            decreases len - filled,
        {
            buffer.push(S::neutral());
            filled += 1;
        }
        Sound { buffer, buf_size: len, volume: 0, mute: false, current: 0, called: 0 }
    }

    /// Mixes one output period: fills every slot of `out` with the output
    /// code of the next sample, moving the cursor by one per slot, and then
    /// counts the period. A store that is muted, has volume 0 or has an
    /// empty buffer fills `out` with the output bias. Neither counter wraps:
    /// both must have room for this period.
    pub fn callback(&mut self, out: &mut [u16])
        requires
            old(self)@.current + old(out)@.len() <= usize::MAX,
            old(self)@.called < usize::MAX,
        ensures
            final(out)@.len() == old(out)@.len(),
            forall|i: int|
                0 <= i < old(out)@.len() ==> final(out)@[i] == old(self)@.output_at(
                    old(self)@.current + i,
                ),
            old(self)@.mute || old(self)@.volume == 0 ==> forall|i: int|
                0 <= i < old(out)@.len() ==> final(out)@[i] == OUTPUT_BIAS,
            final(self)@ == old(self)@.after_period(old(out)@.len()),
    {
        proof {
            use_type_invariant(&*self);
        }
        let produced: usize = out.len();
        let silent: bool = self.mute || self.volume == 0 || self.buf_size == 0;
        let mut done: usize = 0;
        while done < produced
            invariant
                done <= produced,
                out@.len() == produced,
                self.buf_size == self.buffer@.len(),
                self.buffer@ == old(self).buffer@,
                self.volume == old(self).volume,
                self.mute == old(self).mute,
                self.called == old(self).called,
                self.current == old(self).current + done,
                old(self).current + produced <= usize::MAX,
                silent == !old(self)@.audible(),
                forall|i: int|
                    0 <= i < done ==> out@[i] == old(self)@.output_at(old(self)@.current + i),
            decreases produced - done,
        {
            let code: u16 = if silent {
                OUTPUT_BIAS
            } else {
                let raw: S = self.buffer[self.current % self.buf_size];
                raw.scaled(self.volume)
            };
            out[done] = code;
            self.current += 1;
            done += 1;
        }
        self.called += 1;
    }
}

impl<S: Sample> Control for Sound<S> {
    type Raw = S;

    open spec fn state(&self) -> SoundState<S> {
        self@
    }

    fn set_mute(&mut self, specifier: bool) {
        proof {
            use_type_invariant(&*self);
        }
        self.mute = specifier;
    }

    fn set_volume(&mut self, volume: u16) {
        proof {
            use_type_invariant(&*self);
        }
        self.volume = volume;
    }

    fn set_data(&mut self, offset: usize, sound: &[S]) {
        proof {
            use_type_invariant(&*self);
        }
        let len: usize = self.buf_size;
        let count: usize = sound.len();
        if len == 0 {
            assert(written(self.buffer@, offset as int, sound@) =~= self.buffer@);
            return ;
        }
        let mut pos: usize = offset % len;
        let mut taken: usize = 0;
        assert(written(self.buffer@, offset as int, sound@.take(0)) =~= self.buffer@);
        while taken < count
            invariant
                taken <= count,
                count == sound@.len(),
                len == self.buf_size,
                0 < len == self.buffer@.len(),
                len == old(self).buffer@.len(),
                pos == (offset + taken) % (len as int),
                self.buffer@ == written(old(self).buffer@, offset as int, sound@.take(taken as int)),
                self.volume == old(self).volume,
                self.mute == old(self).mute,
                self.current == old(self).current,
                self.called == old(self).called,
            decreases count - taken,
        {
            proof {
                lemma_written_step(old(self).buffer@, offset as int, sound@, taken as int);
                lemma_next_slot(offset + taken, len as int);
            }
            self.buffer[pos] = sound[taken];
            pos += 1;
            if pos == len {
                pos = 0;
            }
            taken += 1;
        }
        assert(sound@.take(count as int) =~= sound@);
    }

    fn buf_size(&mut self) -> (size: usize) {
        proof {
            use_type_invariant(&*self);
        }
        self.buf_size
    }

    fn mute(&mut self) -> (mute: bool) {
        self.mute
    }

    fn volume(&mut self) -> (volume: u16) {
        self.volume
    }

    fn current(&mut self) -> (current: usize) {
        self.current
    }

    fn called(&mut self) -> (called: usize) {
        self.called
    }
}

} // verus!
