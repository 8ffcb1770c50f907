//! What a caller asks of an output stream before it is opened.

use vstd::prelude::*;

verus! {

/// The desired parameters of an output stream. `None` leaves a parameter to
/// the backend that opens the stream.
#[derive(Clone, Copy, Debug)]
pub struct StreamDescriptor {
    /// Samples per second.
    pub freq: Option<i32>,
    /// The number of channels.
    pub channels: Option<u8>,
    /// The number of samples per output period.
    pub samples: Option<u16>,
}

impl StreamDescriptor {
    /// A descriptor that leaves every parameter to the backend.
    pub fn new() -> (desired: Self)
        ensures
            desired.freq is None,
            desired.channels is None,
            desired.samples is None,
    {
        StreamDescriptor { freq: None, channels: None, samples: None }
    }

    /// The desired frequency.
    pub fn freq(&self) -> (freq: Option<i32>)
        ensures
            freq == self.freq,
    {
        self.freq
    }

    /// Sets the desired frequency and nothing else.
    pub fn set_freq(&mut self, freq: Option<i32>)
        ensures
            *final(self) == (StreamDescriptor { freq, ..*old(self) }),
    {
        self.freq = freq;
    }

    /// The desired number of channels.
    pub fn channels(&self) -> (channels: Option<u8>)
        ensures
            channels == self.channels,
    {
        self.channels
    }

    /// Sets the desired number of channels and nothing else.
    pub fn set_channels(&mut self, channels: Option<u8>)
        ensures
            *final(self) == (StreamDescriptor { channels, ..*old(self) }),
    {
        self.channels = channels;
    }

    /// The desired number of samples per output period.
    pub fn samples(&self) -> (samples: Option<u16>)
        ensures
            samples == self.samples,
    {
        self.samples
    }

    /// Sets the desired number of samples per output period and nothing
    /// else.
    pub fn set_samples(&mut self, samples: Option<u16>)
        ensures
            *final(self) == (StreamDescriptor { samples, ..*old(self) }),
    {
        self.samples = samples;
    }
}

impl Default for StreamDescriptor {
    fn default() -> (desired: Self)
        ensures
            desired.freq is None,
            desired.channels is None,
            desired.samples is None,
    {
        StreamDescriptor::new()
    }
}

} // verus!
