use crate::audio_backend::channel::try_recv;
use crate::audio_backend::chunk::{duration_to_position, spec_duration_to_position};
use crate::time::Duration;
use crossbeam::channel::Receiver;
use vstd::prelude::*;

verus! {

/// Lets a stream of samples skip ahead when it is told to.
pub struct Seekable {
    seek_receiver: Receiver<Duration>,
}

/// Number of samples that a stream of the given rate skips for a request.
pub open spec fn spec_samples_to_skip(request: Option<Duration>, sample_rate: u32) -> usize {
    match request {
        Some(duration) => spec_duration_to_position(duration, sample_rate, 1),
        None => 0,
    }
}

/// Number of samples that a stream of the given rate skips for a request.
pub fn samples_to_skip(request: Option<Duration>, sample_rate: u32) -> (count: usize)
    ensures
        count == spec_samples_to_skip(request, sample_rate),
{
    match request {
        Some(duration) => duration_to_position(&duration, sample_rate, 1),
        None => 0,
    }
}

impl Seekable {
    /// The channel that the times to skip come in by.
    pub closed spec fn seek_receiver(&self) -> Receiver<Duration> {
        self.seek_receiver
    }

    /// A wrapper that skips by the times that come in by the given channel.
    pub fn new(seek_receiver: Receiver<Duration>) -> (seekable: Seekable)
        ensures
            seekable.seek_receiver() == seek_receiver,
    {
        Seekable { seek_receiver }
    }

    /// Takes note of a pull. Returns how many samples the stream skips now: those of
    /// the time that was asked for since the last pull, if any was.
    pub fn next(&self, sample_rate: u32) -> (count: usize)
        ensures
            exists|request: Option<Duration>| count == #[trigger] spec_samples_to_skip(
                request,
                sample_rate,
            ),
    {
        let request = try_recv(&self.seek_receiver);
        let count = samples_to_skip(request, sample_rate);
        assert(count == spec_samples_to_skip(request, sample_rate));
        count
    }
}

/// Drops the beginning of a stream of samples.
pub struct SkipDuration {
    duration: Duration,
    skipped: bool,
}

impl SkipDuration {
    /// The time that is dropped.
    pub closed spec fn duration(&self) -> Duration {
        self.duration
    }

    /// The beginning was dropped already.
    pub closed spec fn skipped(&self) -> bool {
        self.skipped
    }

    /// A wrapper that drops the first `duration` of its stream.
    pub fn new(duration: Duration) -> (skip: SkipDuration)
        ensures
            skip.duration() == duration,
            !skip.skipped(),
    {
        SkipDuration { duration, skipped: false }
    }

    /// Takes note of a pull. Returns how many samples the stream drops before it
    /// gives one: on the first pull as many as fit into the time, then none.
    pub fn next(&mut self, sample_rate: u32, channels: u16) -> (count: usize)
        ensures
            count == if old(self).skipped() {
                0
            } else {
                spec_duration_to_position(old(self).duration(), sample_rate, channels)
            },
            final(self).skipped(),
            final(self).duration() == old(self).duration(),
    {
        if self.skipped {
            0
        } else {
            self.skipped = true;
            duration_to_position(&self.duration, sample_rate, channels)
        }
    }
}

} // verus!
