use crate::song::SongID;
use crate::time::Duration;
use std::sync::Arc;
use vstd::arithmetic::div_mod::*;
use vstd::arithmetic::mul::*;
use vstd::prelude::*;

verus! {

/// Number of interleaved samples that one chunk holds.
pub const CHUNK_SIZE: usize = 1024;

/// Microseconds in one second.
pub const MICROS_PER_SEC: u128 = 1_000_000;

/// One sample, carried as the bit pattern of a 32-bit IEEE 754 number.
pub type Sample = u32;

/// A block of decoded, interleaved samples of one song.
pub struct SamplesChunk {
    pub channels: u16,
    pub sample_rate: u32,
    /// Index of the chunk's first sample within the song, counting interleaved samples.
    pub start_position: usize,
    /// Number of samples of `data` that belong to the song.
    pub length: usize,
    pub data: Arc<Vec<Sample>>,
    pub song_id: SongID,
    pub last_chunk: bool,
}

/// What a chunk holds, with its samples as a sequence.
pub struct ChunkView {
    pub channels: u16,
    pub sample_rate: u32,
    pub start_position: usize,
    pub length: usize,
    pub data: Seq<Sample>,
    pub song_id: SongID,
    pub last_chunk: bool,
}

impl View for SamplesChunk {
    type V = ChunkView;

    open spec fn view(&self) -> ChunkView {
        ChunkView {
            channels: self.channels,
            sample_rate: self.sample_rate,
            start_position: self.start_position,
            length: self.length,
            data: self.data@,
            song_id: self.song_id,
            last_chunk: self.last_chunk,
        }
    }
}

impl ChunkView {
    /// A chunk that a source can play: it knows its format, holds a full buffer
    /// of which at least one sample belongs to the song, and only the last chunk
    /// of a song is filled in part.
    pub open spec fn wf(self) -> bool {
        &&& self.channels > 0
        &&& self.sample_rate > 0
        &&& 1 <= self.length <= CHUNK_SIZE
        &&& self.data.len() == CHUNK_SIZE
        &&& self.start_position + self.length <= usize::MAX
        &&& (self.length < CHUNK_SIZE ==> self.last_chunk)
    }
}

impl Clone for SamplesChunk {
    /// A second handle on the same chunk: the samples are shared, not copied.
    fn clone(&self) -> (res: Self)
        ensures
            res == *self,
    {
        SamplesChunk {
            channels: self.channels,
            sample_rate: self.sample_rate,
            start_position: self.start_position,
            length: self.length,
            data: share_samples(&self.data),
            song_id: self.song_id,
            last_chunk: self.last_chunk,
        }
    }
}

/// `Arc::clone` of std: the new handle points to the same samples as `data`.
#[verifier::external_body]
fn share_samples(data: &Arc<Vec<Sample>>) -> (res: Arc<Vec<Sample>>)
    ensures
        res == *data,
{
    Arc::clone(data)
}

impl SamplesChunk {
    pub open spec fn wf(&self) -> bool {
        self@.wf()
    }

    /// Tells whether the chunk is one that a source can play.
    pub fn is_well_formed(&self) -> (ok: bool)
        ensures
            ok == self.wf(),
    {
        self.channels > 0 && self.sample_rate > 0 && 1 <= self.length && self.length <= CHUNK_SIZE
            && self.data.len() == CHUNK_SIZE && self.start_position <= usize::MAX - self.length
            && (self.length == CHUNK_SIZE || self.last_chunk)
    }

    /// The time within the song at which the chunk begins.
    pub fn get_start_time(&self) -> (time: Duration)
        requires
            self.wf(),
        ensures
            time == spec_position_to_duration(self.start_position, self.sample_rate, self.channels),
    {
        position_to_duration(self.start_position, self.sample_rate, self.channels)
    }

    /// The time within the song at which the chunk ends.
    pub fn get_end_time(&self) -> (time: Duration)
        requires
            self.wf(),
        ensures
            time == spec_position_to_duration(
                (self.start_position + self.length) as usize,
                self.sample_rate,
                self.channels,
            ),
    {
        position_to_duration(self.start_position + self.length, self.sample_rate, self.channels)
    }

    /// The sample at `index` of the chunk's buffer.
    pub fn sample(&self, index: usize) -> (sample: Sample)
        requires
            index < self.data@.len(),
        ensures
            sample == self.data@[index as int],
    {
        self.data[index]
    }
}

/// Whole microseconds that `position` interleaved samples last.
pub open spec fn spec_position_to_micros(position: int, sample_rate: int, channels: int) -> int {
    position * 1_000_000 / (sample_rate * channels)
}

/// The time that `position` interleaved samples last, to the microsecond.
pub open spec fn spec_position_to_duration(position: usize, sample_rate: u32, channels: u16) -> Duration {
    Duration {
        nanos: (spec_position_to_micros(position as int, sample_rate as int, channels as int)
            * 1_000) as u128,
    }
}

/// Interleaved samples that fit into `micros` microseconds, before any limit of the machine.
pub open spec fn spec_micros_to_position(micros: int, sample_rate: int, channels: int) -> int {
    micros * (sample_rate * channels) / 1_000_000
}

/// Interleaved samples that fit into `duration`, held at `usize::MAX`.
pub open spec fn spec_duration_to_position(duration: Duration, sample_rate: u32, channels: u16) -> usize {
    let exact = spec_micros_to_position(
        duration.nanos as int / 1_000,
        sample_rate as int,
        channels as int,
    );
    if exact > usize::MAX {
        usize::MAX
    } else {
        exact as usize
    }
}

/// Converts a count of interleaved samples into the time they last.
pub fn position_to_duration(position: usize, sample_rate: u32, channels: u16) -> (duration: Duration)
    requires
        sample_rate > 0,
        channels > 0,
    ensures
        duration == spec_position_to_duration(position, sample_rate, channels),
{
    let scaled: u128 = position as u128 * MICROS_PER_SEC;
    let micros: u128 = scaled / (sample_rate as u128) / (channels as u128);
    proof {
        lemma_div_denominator(scaled as int, sample_rate as int, channels as int);
        lemma_mul_is_commutative(sample_rate as int, channels as int);
        assert(micros <= scaled) by {
            lemma_div_is_ordered_by_denominator(scaled as int, 1, (sample_rate * channels) as int);
        }
    }
    Duration { nanos: micros * 1_000 }
}

/// Converts a time into the count of interleaved samples that fit into it.
///
/// A count that `usize` cannot hold comes back as `usize::MAX`.
pub fn duration_to_position(duration: &Duration, sample_rate: u32, channels: u16) -> (position: usize)
    ensures
        position == spec_duration_to_position(*duration, sample_rate, channels),
{
    let micros: u128 = duration.nanos / 1_000;
    proof {
        assert(sample_rate * channels < 0x1_0000_0000_0000) by (nonlinear_arith)
            requires
                sample_rate < 0x1_0000_0000,
                channels < 0x1_0000,
        ;
    }
    let rate: u128 = sample_rate as u128 * (channels as u128);
    if rate == 0 {
        proof {
            lemma_mul_basics(micros as int);
        }
        return 0;
    }
    let whole: u128 = micros / MICROS_PER_SEC;
    let rest: u128 = micros % MICROS_PER_SEC;
    proof {
        lemma_micros_split(micros as int, rate as int);
    }
    if whole > usize::MAX as u128 {
        proof {
            assert(whole * rate >= whole) by (nonlinear_arith)
                requires
                    rate >= 1,
                    whole >= 0,
            ;
        }
        return usize::MAX;
    }
    proof {
        assert(whole * rate < 0x1_0000_0000_0000_0000 * 0x1_0000_0000_0000) by (nonlinear_arith)
            requires
                whole < 0x1_0000_0000_0000_0000,
                rate < 0x1_0000_0000_0000,
        ;
        assert(rest * rate < 1_000_000 * 0x1_0000_0000_0000) by (nonlinear_arith)
            requires
                rest < 1_000_000,
                rate < 0x1_0000_0000_0000,
        ;
    }
    let exact: u128 = whole * rate + rest * rate / MICROS_PER_SEC;
    if exact > usize::MAX as u128 {
        usize::MAX
    } else {
        exact as usize
    }
}

/// A position goes to its time and back without gaining a sample, and loses less than
/// one sample more than a microsecond holds. Where a second holds at most a million
/// interleaved samples, the position that comes back is at most one sample short.
pub proof fn lemma_position_round_trip(position: usize, sample_rate: u32, channels: u16)
    requires
        sample_rate > 0,
        channels > 0,
    ensures
        ({
            let duration = spec_position_to_duration(position, sample_rate, channels);
            let back = spec_duration_to_position(duration, sample_rate, channels);
            &&& back <= position
            &&& (position - back - 1) * 1_000_000 < sample_rate * channels
            &&& (sample_rate * channels <= 1_000_000 ==> position - back <= 1)
        }),
{
    let rate = sample_rate as int * channels as int;
    let scaled = position as int * 1_000_000;
    let micros = scaled / rate;
    assert(0 < rate < 0x1_0000_0000_0000) by (nonlinear_arith)
        requires
            rate == sample_rate * channels,
            0 < sample_rate < 0x1_0000_0000,
            0 < channels < 0x1_0000,
    ;
    lemma_fundamental_div_mod(scaled, rate);
    lemma_mod_bound(scaled, rate);
    lemma_div_pos_is_pos(scaled, rate);
    assert(micros <= scaled) by {
        lemma_div_is_ordered_by_denominator(scaled, 1, rate);
    }
    let nanos = micros * 1_000;
    assert(nanos as u128 == nanos);
    assert(nanos / 1_000 == micros);
    let product = micros * rate;
    assert(product == rate * micros) by (nonlinear_arith)
        requires
            product == micros * rate,
    ;
    assert(product >= 0) by (nonlinear_arith)
        requires
            product == micros * rate,
            micros >= 0,
            rate > 0,
    ;
    let back = product / 1_000_000;
    lemma_fundamental_div_mod(product, 1_000_000);
    lemma_mod_bound(product, 1_000_000);
    assert(back <= position) by {
        lemma_div_is_ordered(product, scaled, 1_000_000);
        lemma_div_multiples_vanish(position as int, 1_000_000);
    }
    lemma_div_pos_is_pos(product, 1_000_000);
}

/// The time of a position never falls as the position grows.
pub proof fn lemma_position_to_duration_monotonic(
    earlier: usize,
    later: usize,
    sample_rate: u32,
    channels: u16,
)
    requires
        earlier <= later,
        sample_rate > 0,
        channels > 0,
    ensures
        spec_position_to_duration(earlier, sample_rate, channels).nanos
            <= spec_position_to_duration(later, sample_rate, channels).nanos,
{
    let rate = sample_rate as int * channels as int;
    assert(0 < rate) by (nonlinear_arith)
        requires
            rate == sample_rate * channels,
            0 < sample_rate,
            0 < channels,
    ;
    lemma_div_is_ordered(earlier as int * 1_000_000, later as int * 1_000_000, rate);
    lemma_div_pos_is_pos(earlier as int * 1_000_000, rate);
    assert(later as int * 1_000_000 / rate <= later as int * 1_000_000) by {
        lemma_div_is_ordered_by_denominator(later as int * 1_000_000, 1, rate);
    }
}

/// Splitting a time into whole seconds and the rest does not change the sample count.
proof fn lemma_micros_split(micros: int, rate: int)
    requires
        micros >= 0,
        rate >= 0,
    ensures
        micros * rate / 1_000_000 == (micros / 1_000_000) * rate + (micros % 1_000_000) * rate
            / 1_000_000,
        (micros % 1_000_000) * rate / 1_000_000 >= 0,
{
    let whole = micros / 1_000_000;
    let rest = micros % 1_000_000;
    lemma_fundamental_div_mod(micros, 1_000_000);
    assert(micros * rate == 1_000_000 * (whole * rate) + rest * rate) by (nonlinear_arith)
        requires
            micros == 1_000_000 * whole + rest,
    ;
    assert(rest * rate >= 0) by (nonlinear_arith)
        requires
            rest >= 0,
            rate >= 0,
    ;
    lemma_hoist_over_denominator(rest * rate, whole * rate, 1_000_000);
    lemma_div_pos_is_pos(rest * rate, 1_000_000);
}

} // verus!
