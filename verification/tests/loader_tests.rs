use musicus::audio_backend::chunk::{position_to_duration, SamplesChunk, CHUNK_SIZE};
use musicus::audio_backend::loader::{load_chunks, ChunkLoader, DecodedSong};
use musicus::audio_backend::{LoadInfo, OpenError};
use musicus::time::Duration;

fn decoded(total: usize, total_duration: Option<Duration>) -> DecodedSong {
    DecodedSong {
        channels: 2,
        sample_rate: 44_100,
        total_duration,
        samples: (0..total).map(|i| i as u32 + 1).collect(),
    }
}

fn chunks_of(events: &[LoadInfo]) -> Vec<&SamplesChunk> {
    events
        .iter()
        .filter_map(|event| match event {
            LoadInfo::Chunk(chunk) => Some(chunk),
            _ => None,
        })
        .collect()
}

#[test]
fn loader_accounts_for_every_sample() {
    for total in [1usize, 1023, 1024, 1025, 2048, 2500, 5000] {
        let events = load_chunks(9, Ok(decoded(total, None)));
        let chunks = chunks_of(&events);
        assert_eq!(chunks.iter().map(|chunk| chunk.length).sum::<usize>(), total);
        assert_eq!(chunks.len(), (total + CHUNK_SIZE - 1) / CHUNK_SIZE);
        for (k, chunk) in chunks.iter().enumerate() {
            assert_eq!(chunk.start_position, k * CHUNK_SIZE);
            assert_eq!(chunk.channels, 2);
            assert_eq!(chunk.sample_rate, 44_100);
            assert_eq!(chunk.song_id, 9);
            assert_eq!(chunk.data.len(), CHUNK_SIZE);
            assert!(chunk.is_well_formed());
            for i in 0..chunk.length {
                assert_eq!(chunk.data[i], (k * CHUNK_SIZE + i) as u32 + 1);
            }
        }
    }
}

#[test]
fn loader_marks_the_last_chunk_and_no_other() {
    for total in [1usize, 1024, 1025, 3072, 4000] {
        let events = load_chunks(1, Ok(decoded(total, None)));
        let chunks = chunks_of(&events);
        let marked = chunks.iter().filter(|chunk| chunk.last_chunk).count();
        assert_eq!(marked, 1);
        assert!(chunks.last().unwrap().last_chunk);
        for chunk in &chunks[..chunks.len() - 1] {
            assert_eq!(chunk.length, CHUNK_SIZE);
        }
    }
}

#[test]
fn loader_fills_the_last_chunk_in_part() {
    let events = load_chunks(1, Ok(decoded(2500, None)));
    let chunks = chunks_of(&events);
    assert_eq!(chunks.len(), 3);
    assert_eq!(chunks[2].length, 2500 - 2048);
    assert_eq!(chunks[2].start_position, 2048);
    // behind the samples of the song the buffer still holds those of the chunk before
    assert_eq!(chunks[2].data[2500 - 2048], (1024 + 2500 - 2048) as u32 + 1);
    assert_eq!(chunks[2].data[CHUNK_SIZE - 1], 2048);
}

#[test]
fn loader_pads_a_short_song_with_zeros() {
    let events = load_chunks(1, Ok(decoded(3, None)));
    let chunks = chunks_of(&events);
    assert_eq!(chunks.len(), 1);
    assert_eq!(chunks[0].length, 3);
    assert_eq!(&chunks[0].data[..5], &[1, 2, 3, 0, 0]);
    assert!(chunks[0].last_chunk);
}

#[test]
fn loader_reports_a_stated_length_first() {
    let events = load_chunks(4, Ok(decoded(2048, Some(Duration::from_secs(10)))));
    assert_eq!(events.len(), 3);
    assert!(matches!(&events[0], LoadInfo::Duration(4, d) if *d == Duration::from_secs(10)));
    assert!(matches!(&events[1], LoadInfo::Chunk(_)));
    assert!(matches!(&events[2], LoadInfo::Chunk(chunk) if chunk.last_chunk));
}

#[test]
fn loader_reports_a_counted_length_last() {
    let events = load_chunks(4, Ok(decoded(2500, None)));
    assert_eq!(events.len(), 4);
    assert!(matches!(&events[0], LoadInfo::Chunk(_)));
    let counted = position_to_duration(2500, 44_100, 2);
    assert!(matches!(&events[3], LoadInfo::Duration(4, d) if *d == counted));
}

#[test]
fn loader_of_an_empty_song() {
    let events = load_chunks(4, Ok(decoded(0, None)));
    assert_eq!(events.len(), 1);
    assert!(matches!(&events[0], LoadInfo::Duration(4, d) if *d == Duration::zero()));
    let events = load_chunks(4, Ok(decoded(0, Some(Duration::from_secs(1)))));
    assert_eq!(events.len(), 1);
    assert!(matches!(&events[0], LoadInfo::Duration(4, d) if *d == Duration::from_secs(1)));
}

#[test]
fn loader_reports_why_a_song_could_not_be_opened() {
    let events = load_chunks(7, Err(OpenError::FileNotFound));
    assert_eq!(events.len(), 1);
    assert!(matches!(&events[0], LoadInfo::Failed(7, OpenError::FileNotFound)));
    let events = load_chunks(8, Err(OpenError::NotDecodable));
    assert_eq!(events.len(), 1);
    assert!(matches!(&events[0], LoadInfo::Failed(8, OpenError::NotDecodable)));
}

#[test]
fn loader_chunks_begin_at_times_that_never_fall() {
    let events = load_chunks(1, Ok(decoded(10_000, None)));
    let mut before = Duration::zero();
    for chunk in chunks_of(&events) {
        let now = chunk.get_start_time();
        assert!(now.as_nanos() >= before.as_nanos());
        before = now;
    }
}

/// A short text for each report, to compare lists of reports by.
fn describe(events: &[LoadInfo]) -> Vec<String> {
    events
        .iter()
        .map(|event| match event {
            LoadInfo::Chunk(c) => format!(
                "chunk {} {} {} {} {} {} {:?}",
                c.song_id, c.channels, c.sample_rate, c.start_position, c.length, c.last_chunk,
                c.data
            ),
            LoadInfo::Duration(id, d) => format!("duration {} {}", id, d.as_nanos()),
            LoadInfo::Failed(id, e) => format!("failed {} {:?}", id, e),
        })
        .collect()
}

/// Loads a song sample by sample.
fn stream(song_id: u32, decoded: &DecodedSong) -> Vec<LoadInfo> {
    let mut loader = ChunkLoader::new(
        song_id,
        decoded.channels,
        decoded.sample_rate,
        decoded.total_duration,
    );
    let mut events: Vec<LoadInfo> = loader.opening().into_iter().collect();
    for (i, sample) in decoded.samples.iter().enumerate() {
        assert_eq!(loader.samples_fed(), i);
        events.extend(loader.feed(*sample, i + 1 < decoded.samples.len()));
    }
    events.extend(loader.finish());
    events
}

#[test]
fn a_song_is_loaded_the_same_sample_by_sample() {
    for total in [0usize, 1, 1023, 1024, 1025, 2048, 2500, 4096] {
        for stated in [None, Some(Duration::from_secs(2))] {
            let streamed = stream(3, &decoded(total, stated));
            let whole = load_chunks(3, Ok(decoded(total, stated)));
            assert_eq!(describe(&streamed), describe(&whole));
        }
    }
}

#[test]
fn a_chunk_is_due_when_the_buffer_is_full() {
    let mut loader = ChunkLoader::new(1, 1, 8_000, None);
    assert!(loader.opening().is_none());
    for i in 0..CHUNK_SIZE - 1 {
        assert!(loader.feed(i as u32, true).is_none());
    }
    match loader.feed(77, true) {
        Some(LoadInfo::Chunk(chunk)) => {
            assert_eq!(chunk.start_position, 0);
            assert_eq!(chunk.length, CHUNK_SIZE);
            assert!(!chunk.last_chunk);
            assert_eq!(chunk.data[CHUNK_SIZE - 1], 77);
            assert_eq!(chunk.data[5], 5);
        }
        _ => panic!("no chunk"),
    }
    assert!(loader.feed(9, false).is_none());
    let closing = loader.finish();
    assert_eq!(closing.len(), 2);
    assert!(matches!(&closing[0], LoadInfo::Chunk(c)
        if c.start_position == CHUNK_SIZE && c.length == 1 && c.last_chunk && c.data[0] == 9
            && c.data[1] == 1));
    let counted = position_to_duration(CHUNK_SIZE + 1, 8_000, 1);
    assert!(matches!(&closing[1], LoadInfo::Duration(1, d) if *d == counted));
    let stating = ChunkLoader::new(1, 1, 8_000, Some(Duration::from_secs(4)));
    assert!(matches!(stating.opening(), Some(LoadInfo::Duration(1, d)) if d == Duration::from_secs(4)));
    assert!(stating.finish().is_empty());
}
