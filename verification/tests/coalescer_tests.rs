use musicus::audio_backend::chunk::{SamplesChunk, CHUNK_SIZE};
use musicus::audio_backend::{
    AudioBackendCommand, AudioCommand, AudioUpdate, LoadInfo, OpenError, PlayingUpdate,
    SeekCommand, SeekDirection,
};
use musicus::song::Song;
use musicus::time::Duration;
use std::sync::Arc;

fn song(id: u32) -> Song {
    Song::new(id, format!("song {}", id), format!("/music/{}.ogg", id))
}

fn play(id: u32) -> AudioBackendCommand {
    AudioBackendCommand::Command(AudioCommand::Play(song(id)))
}

fn queue(id: u32) -> AudioBackendCommand {
    AudioBackendCommand::Command(AudioCommand::Queue(song(id)))
}

fn seek(millis: u64, direction: SeekDirection) -> AudioBackendCommand {
    AudioBackendCommand::Command(AudioCommand::Seek(SeekCommand {
        duration: Duration::from_millis(millis),
        direction,
    }))
}

fn volume(v: u8) -> AudioBackendCommand {
    AudioBackendCommand::Command(AudioCommand::SetVolume(v))
}

fn playing(song_id: u32, samples_played: usize) -> AudioBackendCommand {
    AudioBackendCommand::Update(AudioUpdate::Playing(PlayingUpdate { song_id, samples_played }))
}

fn starts(song_id: u32) -> AudioBackendCommand {
    AudioBackendCommand::Update(AudioUpdate::SongStarts(song_id))
}

fn chunk(song_id: u32, start_position: usize) -> AudioBackendCommand {
    AudioBackendCommand::LoadInfo(LoadInfo::Chunk(SamplesChunk {
        channels: 2,
        sample_rate: 44_100,
        start_position,
        length: CHUNK_SIZE,
        data: Arc::new(vec![0; CHUNK_SIZE]),
        song_id,
        last_chunk: false,
    }))
}

/// A short text for each message, to compare batches by.
fn describe(batch: &[AudioBackendCommand]) -> Vec<String> {
    batch
        .iter()
        .map(|message| match message {
            AudioBackendCommand::Command(AudioCommand::Play(s)) => format!("play {}", s.get_id()),
            AudioBackendCommand::Command(AudioCommand::Queue(s)) => format!("queue {}", s.get_id()),
            AudioBackendCommand::Command(AudioCommand::Pause) => "pause".to_string(),
            AudioBackendCommand::Command(AudioCommand::Unpause) => "unpause".to_string(),
            AudioBackendCommand::Command(AudioCommand::Seek(s)) => {
                format!("seek {:?} {}", s.direction, s.duration.as_nanos())
            }
            AudioBackendCommand::Command(AudioCommand::SetVolume(v)) => format!("volume {}", v),
            AudioBackendCommand::Update(AudioUpdate::Playing(p)) => {
                format!("playing {} {}", p.song_id, p.samples_played)
            }
            AudioBackendCommand::Update(AudioUpdate::SongStarts(id)) => format!("starts {}", id),
            AudioBackendCommand::LoadInfo(LoadInfo::Chunk(c)) => {
                format!("chunk {} {}", c.song_id, c.start_position)
            }
            AudioBackendCommand::LoadInfo(LoadInfo::Duration(id, d)) => {
                format!("duration {} {}", id, d.as_nanos())
            }
            AudioBackendCommand::LoadInfo(LoadInfo::Failed(id, e)) => {
                format!("failed {} {:?}", id, e)
            }
        })
        .collect()
}

fn mixed_batch() -> Vec<AudioBackendCommand> {
    vec![
        play(1),
        volume(10),
        chunk(2, 0),
        AudioBackendCommand::Command(AudioCommand::Pause),
        seek(1_000, SeekDirection::Forward),
        playing(1, 1024),
        starts(2),
        play(2),
        AudioBackendCommand::LoadInfo(LoadInfo::Duration(2, Duration::from_secs(3))),
        queue(3),
        seek(4_000, SeekDirection::Backward),
        volume(55),
        playing(2, 2048),
        AudioBackendCommand::Command(AudioCommand::Unpause),
        AudioBackendCommand::LoadInfo(LoadInfo::Failed(5, OpenError::NotDecodable)),
        chunk(2, 1024),
    ]
}

#[test]
fn simplify_of_nothing_is_nothing() {
    assert!(AudioBackendCommand::simplify(Vec::new()).is_empty());
}

#[test]
fn simplify_keeps_the_meaning_of_a_batch() {
    let simplified = AudioBackendCommand::simplify(mixed_batch());
    assert_eq!(
        describe(&simplified),
        vec![
            "pause",
            "starts 2",
            "queue 3",
            "unpause",
            "chunk 2 0",
            "duration 2 3000000000",
            "failed 5 NotDecodable",
            "chunk 2 1024",
            "play 2",
            "playing 2 2048",
            "seek Backward 3000000000",
            "volume 55",
        ]
    );
}

#[test]
fn simplify_twice_is_simplify_once() {
    let once = AudioBackendCommand::simplify(mixed_batch());
    let expected = describe(&once);
    let twice = AudioBackendCommand::simplify(once);
    assert_eq!(describe(&twice), expected);
}

#[test]
fn simplify_joins_seeks_into_one() {
    let simplified = AudioBackendCommand::simplify(vec![
        seek(1_000, SeekDirection::Forward),
        seek(4_000, SeekDirection::Backward),
    ]);
    assert_eq!(describe(&simplified), vec!["seek Backward 3000000000"]);
}

#[test]
fn simplify_keeps_a_single_seek_as_it_is() {
    let simplified = AudioBackendCommand::simplify(vec![seek(0, SeekDirection::Forward)]);
    assert_eq!(describe(&simplified), vec!["seek Forward 0"]);
}

#[test]
fn simplify_keeps_the_order_of_what_is_not_joined() {
    let simplified = AudioBackendCommand::simplify(vec![
        queue(1),
        AudioBackendCommand::Command(AudioCommand::Pause),
        queue(2),
        AudioBackendCommand::Command(AudioCommand::Unpause),
        AudioBackendCommand::Command(AudioCommand::Pause),
    ]);
    assert_eq!(describe(&simplified), vec!["queue 1", "pause", "queue 2", "unpause", "pause"]);
}

#[test]
fn join_adds_seeks_up() {
    let forward = |millis| SeekCommand {
        duration: Duration::from_millis(millis),
        direction: SeekDirection::Forward,
    };
    let backward = |millis| SeekCommand {
        duration: Duration::from_millis(millis),
        direction: SeekDirection::Backward,
    };
    assert_eq!(SeekCommand::join(forward(1_000), forward(2_000)), forward(3_000));
    assert_eq!(SeekCommand::join(backward(1_000), backward(2_000)), backward(3_000));
    assert_eq!(SeekCommand::join(forward(5_000), backward(2_000)), forward(3_000));
    assert_eq!(SeekCommand::join(backward(5_000), forward(2_000)), backward(3_000));
    // jumps that cancel each other make a jump of no length backwards
    assert_eq!(SeekCommand::join(forward(2_000), backward(2_000)), backward(0));
    assert_eq!(SeekCommand::join(forward(0), forward(0)), backward(0));
}

#[test]
fn join_is_held_at_the_longest_span() {
    let longest = SeekCommand {
        duration: Duration::from_nanos(u128::MAX),
        direction: SeekDirection::Forward,
    };
    assert_eq!(SeekCommand::join(longest, longest), longest);
}
