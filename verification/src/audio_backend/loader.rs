use crate::audio_backend::chunk::{
    lemma_position_to_duration_monotonic, position_to_duration, spec_position_to_duration,
    ChunkView, Sample, SamplesChunk, CHUNK_SIZE,
};
use crate::audio_backend::{LoadInfo, LoadInfoView, OpenError};
use crate::song::SongID;
use crate::time::Duration;
use std::sync::Arc;
use vstd::prelude::*;

verus! {

/// What a decoder gives for a song that it could open.
pub struct DecodedSong {
    pub channels: u16,
    pub sample_rate: u32,
    /// The length that the file states, if it states one.
    pub total_duration: Option<Duration>,
    /// All interleaved samples of the song, in order.
    pub samples: Vec<Sample>,
}

/// Number of chunks that `total` samples are cut into.
pub open spec fn chunk_count(total: int) -> int {
    (total + CHUNK_SIZE - 1) / (CHUNK_SIZE as int)
}

/// What the buffer holds at `slot` once the first `fed` samples went in: the buffer is
/// filled round after round, so a slot that the current round has not reached still
/// holds the sample of the round before, and zero in the first round.
pub open spec fn slot_value(samples: Seq<Sample>, fed: int, slot: int) -> Sample {
    let base = fed / (CHUNK_SIZE as int) * CHUNK_SIZE;
    if base + slot < fed {
        samples[base + slot]
    } else if base >= CHUNK_SIZE {
        samples[base - CHUNK_SIZE + slot]
    } else {
        0
    }
}

/// The buffer once the first `fed` samples went in.
pub open spec fn buffer_at(samples: Seq<Sample>, fed: int) -> Seq<Sample> {
    Seq::new(CHUNK_SIZE as nat, |slot: int| slot_value(samples, fed, slot))
}

/// Number of samples that are in by the time chunk `k` is complete.
pub open spec fn fed_at_chunk(total: int, k: int) -> int {
    if (k + 1) * CHUNK_SIZE <= total {
        (k + 1) * CHUNK_SIZE
    } else {
        total
    }
}

/// Chunk number `k` of a song.
pub open spec fn spec_chunk(
    song_id: SongID,
    channels: u16,
    sample_rate: u32,
    samples: Seq<Sample>,
    k: int,
) -> ChunkView {
    let total = samples.len() as int;
    ChunkView {
        channels,
        sample_rate,
        start_position: (k * CHUNK_SIZE) as usize,
        length: (fed_at_chunk(total, k) - k * CHUNK_SIZE) as usize,
        data: buffer_at(samples, fed_at_chunk(total, k)),
        song_id,
        last_chunk: (k + 1) * CHUNK_SIZE >= total,
    }
}

/// The chunks of a song, in order.
pub open spec fn spec_chunks(
    song_id: SongID,
    channels: u16,
    sample_rate: u32,
    samples: Seq<Sample>,
) -> Seq<ChunkView> {
    Seq::new(
        chunk_count(samples.len() as int) as nat,
        |k: int| spec_chunk(song_id, channels, sample_rate, samples, k),
    )
}

/// The first `count` chunks of a song as reports.
pub open spec fn spec_chunk_reports(
    song_id: SongID,
    channels: u16,
    sample_rate: u32,
    samples: Seq<Sample>,
    count: int,
) -> Seq<LoadInfoView> {
    Seq::new(
        count as nat,
        |k: int| LoadInfoView::Chunk(spec_chunk(song_id, channels, sample_rate, samples, k)),
    )
}

/// The report of a stated length, which comes before the chunks.
pub open spec fn spec_leading_reports(song_id: SongID, total_duration: Option<Duration>) -> Seq<
    LoadInfoView,
> {
    match total_duration {
        Some(duration) => seq![LoadInfoView::Duration(song_id, duration)],
        None => Seq::empty(),
    }
}

/// The report of a counted length, which follows the chunks of a song that states none.
pub open spec fn spec_trailing_reports(
    song_id: SongID,
    channels: u16,
    sample_rate: u32,
    total_duration: Option<Duration>,
    total: int,
) -> Seq<LoadInfoView> {
    match total_duration {
        Some(_) => Seq::empty(),
        None => seq![
            LoadInfoView::Duration(
                song_id,
                spec_position_to_duration(total as usize, sample_rate, channels),
            ),
        ],
    }
}

/// Everything a loader reports of a decoded song, in order.
pub open spec fn spec_load_events(
    song_id: SongID,
    channels: u16,
    sample_rate: u32,
    total_duration: Option<Duration>,
    samples: Seq<Sample>,
) -> Seq<LoadInfoView> {
    spec_leading_reports(song_id, total_duration) + spec_chunk_reports(
        song_id,
        channels,
        sample_rate,
        samples,
        chunk_count(samples.len() as int),
    ) + spec_trailing_reports(song_id, channels, sample_rate, total_duration, samples.len() as int)
}

/// The reports of a list, each by its view.
pub open spec fn events_view(events: Seq<LoadInfo>) -> Seq<LoadInfoView> {
    events.map_values(|event: LoadInfo| event@)
}

/// A buffer of zeros.
fn zeroed_buffer() -> (buffer: Vec<Sample>)
    ensures
        buffer@ == buffer_at(Seq::<Sample>::empty(), 0),
{
    let mut buffer: Vec<Sample> = Vec::new();
    let mut filled: usize = 0;
    while filled < CHUNK_SIZE
        invariant
            filled <= CHUNK_SIZE,
            buffer@.len() == filled,
            forall|i: int| 0 <= i < filled ==> buffer@[i] == 0,
        decreases CHUNK_SIZE - filled,
    {
        buffer.push(0);
        filled += 1;
    }
    assert(buffer@ =~= buffer_at(Seq::<Sample>::empty(), 0));
    buffer
}

/// A chunk that holds a copy of the buffer as it stands.
fn emit_chunk(
    song_id: SongID,
    channels: u16,
    sample_rate: u32,
    start_position: usize,
    length: usize,
    buffer: &Vec<Sample>,
    last_chunk: bool,
) -> (chunk: SamplesChunk)
    ensures
        chunk@ == (ChunkView {
            channels,
            sample_rate,
            start_position,
            length,
            data: buffer@,
            song_id,
            last_chunk,
        }),
{
    let copy = buffer.clone();
    assert(copy@ =~= buffer@);
    SamplesChunk {
        channels,
        sample_rate,
        start_position,
        length,
        data: Arc::new(copy),
        song_id,
        last_chunk,
    }
}

/// Cuts the samples of a song into chunks as they come in.
pub struct ChunkLoader {
    song_id: SongID,
    channels: u16,
    sample_rate: u32,
    total_duration: Option<Duration>,
    /// The buffer that the samples go into, round after round.
    data: Vec<Sample>,
    /// Number of samples that went in.
    index: usize,
    fed: Ghost<Seq<Sample>>,
}

/// What a loader works on, and the samples that went in so far.
pub struct ChunkLoaderView {
    pub song_id: SongID,
    pub channels: u16,
    pub sample_rate: u32,
    pub total_duration: Option<Duration>,
    pub fed: Seq<Sample>,
}

impl View for ChunkLoader {
    type V = ChunkLoaderView;

    closed spec fn view(&self) -> ChunkLoaderView {
        ChunkLoaderView {
            song_id: self.song_id,
            channels: self.channels,
            sample_rate: self.sample_rate,
            total_duration: self.total_duration,
            fed: self.fed@,
        }
    }
}

impl ChunkLoaderView {
    /// The last of the chunks that the samples so far are cut into.
    pub open spec fn newest_chunk(self) -> ChunkView {
        spec_chunk(
            self.song_id,
            self.channels,
            self.sample_rate,
            self.fed,
            chunk_count(self.fed.len() as int) - 1,
        )
    }

    /// The samples so far fill their chunks: none is left for a chunk in part.
    pub open spec fn at_chunk_end(self) -> bool {
        self.fed.len() % (CHUNK_SIZE as nat) == 0
    }

    /// The chunk that is due with the newest sample, where more samples may follow
    /// only if `more` says so: none while the buffer is not full.
    pub open spec fn due_chunk(self, more: bool) -> Option<ChunkView> {
        if self.fed.len() > 0 && self.at_chunk_end() {
            Some(ChunkView { last_chunk: !more, ..self.newest_chunk() })
        } else {
            None
        }
    }

    /// What is left to report once all samples are in: the chunk that the samples
    /// fill in part, if there is one, and the length of the samples where the song
    /// states none.
    pub open spec fn closing_reports(self) -> Seq<LoadInfoView> {
        (if self.at_chunk_end() {
            Seq::<LoadInfoView>::empty()
        } else {
            seq![LoadInfoView::Chunk(self.newest_chunk())]
        }) + spec_trailing_reports(
            self.song_id,
            self.channels,
            self.sample_rate,
            self.total_duration,
            self.fed.len() as int,
        )
    }
}

/// The chunks of a song are those of its beginning, but for the mark of the last
/// chunk: a chunk holds only samples that came before its end.
pub proof fn lemma_chunk_of_prefix(
    song_id: SongID,
    channels: u16,
    sample_rate: u32,
    samples: Seq<Sample>,
    fed: int,
    k: int,
)
    requires
        0 <= k,
        (k + 1) * CHUNK_SIZE <= fed <= samples.len(),
    ensures
        spec_chunk(song_id, channels, sample_rate, samples, k) == (ChunkView {
            last_chunk: (k + 1) * CHUNK_SIZE >= samples.len(),
            ..spec_chunk(song_id, channels, sample_rate, samples.take(fed), k)
        }),
{
    let whole = buffer_at(samples, (k + 1) * CHUNK_SIZE);
    let part = buffer_at(samples.take(fed), (k + 1) * CHUNK_SIZE);
    assert(whole =~= part);
}

impl ChunkLoader {
    /// The loader knows a format, and its buffer holds the samples that went in.
    pub closed spec fn wf(&self) -> bool {
        &&& self.channels > 0
        &&& self.sample_rate > 0
        &&& self.index == self.fed@.len()
        &&& self.data@ == buffer_at(self.fed@, self.index as int)
    }

    /// A loader for a song of the given format, into which no sample went yet.
    pub fn new(
        song_id: SongID,
        channels: u16,
        sample_rate: u32,
        total_duration: Option<Duration>,
    ) -> (loader: ChunkLoader)
        requires
            channels > 0,
            sample_rate > 0,
        ensures
            loader@ == (ChunkLoaderView {
                song_id,
                channels,
                sample_rate,
                total_duration,
                fed: Seq::empty(),
            }),
            loader.wf(),
    {
        ChunkLoader {
            song_id,
            channels,
            sample_rate,
            total_duration,
            data: zeroed_buffer(),
            index: 0,
            fed: Ghost(Seq::empty()),
        }
    }

    /// Number of samples that went in.
    pub fn samples_fed(&self) -> (count: usize)
        requires
            self.wf(),
        ensures
            count == self@.fed.len(),
    {
        self.index
    }

    /// What there is to report before the first sample: the length that the song
    /// states, if it states one.
    pub fn opening(&self) -> (report: Option<LoadInfo>)
        ensures
            spec_leading_reports(self@.song_id, self@.total_duration) == match report {
                Some(report) => seq![report@],
                None => Seq::empty(),
            },
    {
        match self.total_duration {
            Some(duration) => Some(LoadInfo::Duration(self.song_id, duration)),
            None => None,
        }
    }

    /// Takes one more sample in. Returns the chunk that the sample completes, if it
    /// completes one; the chunk is marked as the last one unless `more` says that
    /// more samples follow.
    pub fn feed(&mut self, sample: Sample, more: bool) -> (report: Option<LoadInfo>)
        requires
            old(self).wf(),
            old(self)@.fed.len() < usize::MAX,
        ensures
            final(self).wf(),
            final(self)@ == (ChunkLoaderView { fed: old(self)@.fed.push(sample), ..old(self)@ }),
            match report {
                Some(report) => final(self)@.due_chunk(more) matches Some(chunk) && report@
                    == LoadInfoView::Chunk(chunk),
                None => final(self)@.due_chunk(more) is None,
            },
    {
        let ghost before = self.data@;
        let ghost fed = self.fed@.push(sample);
        let chunk_index = self.index % CHUNK_SIZE;
        self.data.set(chunk_index, sample);
        assert(self.data@ =~= buffer_at(fed, self.index + 1)) by {
            assert forall|slot: int| 0 <= slot < CHUNK_SIZE implies self.data@[slot] == slot_value(
                fed,
                self.index + 1,
                slot,
            ) by {
                assert(before[slot] == slot_value(self.fed@, self.index as int, slot));
            }
        }
        self.index += 1;
        self.fed = Ghost(fed);
        if chunk_index == CHUNK_SIZE - 1 {
            let chunk = emit_chunk(
                self.song_id,
                self.channels,
                self.sample_rate,
                self.index - CHUNK_SIZE,
                CHUNK_SIZE,
                &self.data,
                !more,
            );
            Some(LoadInfo::Chunk(chunk))
        } else {
            None
        }
    }

    /// Reports what is left once all samples are in.
    pub fn finish(&self) -> (reports: Vec<LoadInfo>)
        requires
            self.wf(),
        ensures
            events_view(reports@) == self@.closing_reports(),
    {
        let mut reports: Vec<LoadInfo> = Vec::new();
        let rest = self.index % CHUNK_SIZE;
        if rest != 0 {
            let chunk = emit_chunk(
                self.song_id,
                self.channels,
                self.sample_rate,
                self.index - rest,
                rest,
                &self.data,
                true,
            );
            reports.push(LoadInfo::Chunk(chunk));
        }
        if self.total_duration.is_none() {
            let duration = position_to_duration(self.index, self.sample_rate, self.channels);
            reports.push(LoadInfo::Duration(self.song_id, duration));
        }
        assert(events_view(reports@) =~= self@.closing_reports());
        reports
    }
}

/// Cuts a decoded song into chunks and reports them, or reports why the song could
/// not be opened.
///
/// A length that the file states is reported first. The samples follow in chunks of
/// `CHUNK_SIZE`; the last chunk is marked, and holds what is left where the samples do
/// not fill it. Where the file states no length, the length of the samples is
/// reported last.
pub fn load_chunks(song_id: SongID, opened: Result<DecodedSong, OpenError>) -> (events: Vec<
    LoadInfo,
>)
    requires
        opened matches Ok(decoded) ==> decoded.channels > 0 && decoded.sample_rate > 0,
    ensures
        events_view(events@) == match opened {
            Ok(decoded) => spec_load_events(
                song_id,
                decoded.channels,
                decoded.sample_rate,
                decoded.total_duration,
                decoded.samples@,
            ),
            Err(error) => seq![LoadInfoView::Failed(song_id, error)],
        },
{
    let mut events: Vec<LoadInfo> = Vec::new();
    let decoded = match opened {
        Ok(decoded) => decoded,
        Err(error) => {
            events.push(LoadInfo::Failed(song_id, error));
            assert(events_view(events@) =~= seq![LoadInfoView::Failed(song_id, error)]);
            return events;
        },
    };
    let channels = decoded.channels;
    let sample_rate = decoded.sample_rate;
    let total_duration = decoded.total_duration;
    let total: usize = decoded.samples.len();
    let ghost samples = decoded.samples@;
    let ghost leading = spec_leading_reports(song_id, total_duration);
    let mut loader = ChunkLoader::new(song_id, channels, sample_rate, total_duration);
    if let Some(report) = loader.opening() {
        events.push(report);
    }
    assert(events_view(events@) =~= leading);
    assert(samples.take(0) =~= Seq::<Sample>::empty());

    let mut index: usize = 0;
    while index < total
        invariant
            index <= total,
            total == samples.len(),
            samples == decoded.samples@,
            leading == spec_leading_reports(song_id, total_duration),
            loader.wf(),
            loader@ == (ChunkLoaderView {
                song_id,
                channels,
                sample_rate,
                total_duration,
                fed: samples.take(index as int),
            }),
            events_view(events@) == leading + spec_chunk_reports(
                song_id,
                channels,
                sample_rate,
                samples,
                index as int / CHUNK_SIZE as int,
            ),
        decreases total - index,
    {
        let more = index + 1 < total;
        let report = loader.feed(decoded.samples[index], more);
        assert(samples.take(index as int).push(samples[index as int]) =~= samples.take(index + 1));
        if let Some(report) = report {
            let ghost k = index as int / CHUNK_SIZE as int;
            proof {
                lemma_chunk_of_prefix(song_id, channels, sample_rate, samples, index + 1, k);
            }
            let ghost reported = events_view(events@);
            events.push(report);
            assert(events_view(events@) =~= reported.push(report@));
            assert(events_view(events@) =~= leading + spec_chunk_reports(
                song_id,
                channels,
                sample_rate,
                samples,
                k + 1,
            ));
        }
        index += 1;
    }
    assert(samples.take(total as int) =~= samples);
    let ghost full = total as int / CHUNK_SIZE as int;
    let ghost reported = events_view(events@);
    let mut closing = loader.finish();
    events.append(&mut closing);
    assert(events_view(events@) =~= reported + loader@.closing_reports());
    assert(events_view(events@) =~= spec_load_events(
        song_id,
        channels,
        sample_rate,
        total_duration,
        samples,
    ));
    events
}

/// Number of samples that the chunks of a list hold together.
pub open spec fn total_length(chunks: Seq<ChunkView>) -> int
    decreases chunks.len(),
{
    if chunks.len() == 0 {
        0
    } else {
        total_length(chunks.drop_last()) + chunks.last().length
    }
}

/// The first `count` chunks of a song hold its first `count * CHUNK_SIZE` samples, or
/// all of them where the song has fewer.
proof fn lemma_prefix_length(
    song_id: SongID,
    channels: u16,
    sample_rate: u32,
    samples: Seq<Sample>,
    count: int,
)
    requires
        samples.len() <= usize::MAX,
        0 <= count <= chunk_count(samples.len() as int),
    ensures
        total_length(spec_chunks(song_id, channels, sample_rate, samples).take(count)) == if count
            * CHUNK_SIZE <= samples.len() {
            count * CHUNK_SIZE
        } else {
            samples.len() as int
        },
    decreases count,
{
    let chunks = spec_chunks(song_id, channels, sample_rate, samples);
    if count > 0 {
        lemma_prefix_length(song_id, channels, sample_rate, samples, count - 1);
        assert(chunks.take(count).drop_last() =~= chunks.take(count - 1));
        assert(chunks.take(count).last() == chunks[count - 1]);
    }
}

/// The chunks of a song hold each of its samples once: their lengths add up to the
/// number of samples, and chunk number `k` begins at sample `k * CHUNK_SIZE` and holds
/// the samples from there on.
pub proof fn lemma_sample_accounting(
    song_id: SongID,
    channels: u16,
    sample_rate: u32,
    samples: Seq<Sample>,
)
    requires
        samples.len() <= usize::MAX,
    ensures
        ({
            let chunks = spec_chunks(song_id, channels, sample_rate, samples);
            &&& total_length(chunks) == samples.len()
            &&& forall|k: int|
                0 <= k < chunks.len() ==> (#[trigger] chunks[k]).start_position == k * CHUNK_SIZE
            &&& forall|k: int, i: int|
                0 <= k < chunks.len() && 0 <= i < chunks[k].length ==> (#[trigger] chunks[k].data[i])
                    == samples[k * CHUNK_SIZE + i]
        }),
{
    let chunks = spec_chunks(song_id, channels, sample_rate, samples);
    lemma_prefix_length(song_id, channels, sample_rate, samples, chunks.len() as int);
    assert(chunks.take(chunks.len() as int) =~= chunks);
}

/// The last chunk of a song, and no other, is marked as the last. A song with at least
/// one sample has a last chunk.
pub proof fn lemma_last_chunk_unique(
    song_id: SongID,
    channels: u16,
    sample_rate: u32,
    samples: Seq<Sample>,
)
    requires
        samples.len() <= usize::MAX,
    ensures
        ({
            let chunks = spec_chunks(song_id, channels, sample_rate, samples);
            &&& samples.len() > 0 ==> chunks.len() >= 1
            &&& forall|k: int|
                0 <= k < chunks.len() ==> ((#[trigger] chunks[k]).last_chunk <==> k == chunks.len()
                    - 1)
        }),
{
}

/// Every chunk of a song can be played, and all of them have the song's format.
pub proof fn lemma_chunks_well_formed(
    song_id: SongID,
    channels: u16,
    sample_rate: u32,
    samples: Seq<Sample>,
)
    requires
        samples.len() <= usize::MAX,
        channels > 0,
        sample_rate > 0,
    ensures
        ({
            let chunks = spec_chunks(song_id, channels, sample_rate, samples);
            forall|k: int|
                0 <= k < chunks.len() ==> {
                    &&& (#[trigger] chunks[k]).wf()
                    &&& chunks[k].channels == channels
                    &&& chunks[k].sample_rate == sample_rate
                    &&& chunks[k].song_id == song_id
                }
        }),
{
}

/// The time at which a chunk begins never falls from one chunk of a song to a later one.
pub proof fn lemma_chunk_times_ascend(
    song_id: SongID,
    channels: u16,
    sample_rate: u32,
    samples: Seq<Sample>,
    earlier: int,
    later: int,
)
    requires
        samples.len() <= usize::MAX,
        channels > 0,
        sample_rate > 0,
        0 <= earlier <= later < chunk_count(samples.len() as int),
    ensures
        ({
            let chunks = spec_chunks(song_id, channels, sample_rate, samples);
            spec_position_to_duration(chunks[earlier].start_position, sample_rate, channels).nanos
                <= spec_position_to_duration(
                chunks[later].start_position,
                sample_rate,
                channels,
            ).nanos
        }),
{
    let chunks = spec_chunks(song_id, channels, sample_rate, samples);
    lemma_position_to_duration_monotonic(
        chunks[earlier].start_position,
        chunks[later].start_position,
        sample_rate,
        channels,
    );
}

} // verus!
