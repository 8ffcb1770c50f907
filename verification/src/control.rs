//! The control interface of a sample store.

use vstd::prelude::*;
use crate::sample::Sample;
use crate::sound::SoundState;

verus! {

/// What a control thread may do to a sample store: set the mute flag, the
/// volume and the buffer's contents, and read the store's fields. No
/// operation but the one named changes anything.
pub trait Control {
    /// The stored sample type.
    type Raw: Sample;

    /// The store behind the handle. A verified handle says here what it
    /// holds; the contracts below are stated over it.
    open spec fn state(&self) -> SoundState<Self::Raw> {
        arbitrary()
    }

    /// Sets the mute flag.
    fn set_mute(&mut self, specifier: bool)
        ensures
            final(self).state() == (SoundState { mute: specifier, ..old(self).state() }),
    ;

    /// Sets the volume level. Any level is taken; levels above 7 sound like
    /// level 7.
    fn set_volume(&mut self, volume: u16)
        ensures
            final(self).state() == (SoundState { volume, ..old(self).state() }),
    ;

    /// Writes `sound` into the circular buffer, its sample of index `i` into
    /// slot `(offset + i)` modulo the buffer's length. Both counters, the
    /// volume and the mute flag stay. A store with an empty buffer stays as
    /// it is.
    fn set_data(&mut self, offset: usize, sound: &[Self::Raw])
        ensures
            final(self).state() == old(self).state().with_data(offset as int, sound@),
    ;

    /// The buffer's length.
    fn buf_size(&mut self) -> (size: usize)
        ensures
            size == old(self).state().buffer.len(),
            final(self).state() == old(self).state(),
    ;

    /// The mute flag.
    fn mute(&mut self) -> (mute: bool)
        ensures
            mute == old(self).state().mute,
            final(self).state() == old(self).state(),
    ;

    /// The volume level.
    fn volume(&mut self) -> (volume: u16)
        ensures
            volume == old(self).state().volume,
            final(self).state() == old(self).state(),
    ;

    /// The playback cursor.
    fn current(&mut self) -> (current: usize)
        ensures
            current == old(self).state().current,
            final(self).state() == old(self).state(),
    ;

    /// The number of completed output periods.
    fn called(&mut self) -> (called: usize)
        ensures
            called == old(self).state().called,
            final(self).state() == old(self).state(),
    ;
}

} // verus!
