use crate::audio_backend::chunk::{ChunkView, SamplesChunk};
use crate::song::{Song, SongID};
use crate::time::Duration;
use vstd::prelude::*;

pub mod channel;
pub mod chunk;
pub mod coalescer;
pub mod engine;
pub mod loader;
pub mod periodic_access;
pub mod receiver_source;

verus! {

/// Number of chunks that may wait between the engine and the source.
pub const CHUNK_BUFFER_SIZE: usize = 4;

/// Why a song could not be loaded.
#[derive(Clone, Copy, Debug, PartialEq, Eq, Structural)]
pub enum OpenError {
    FileNotFound,
    NotDecodable,
}

/// What a loader reports of the song it decodes.
pub enum LoadInfo {
    Chunk(SamplesChunk),
    Duration(SongID, Duration),
    Failed(SongID, OpenError),
}

/// What a loader's report holds, with a chunk's samples as a sequence.
pub enum LoadInfoView {
    Chunk(ChunkView),
    Duration(SongID, Duration),
    Failed(SongID, OpenError),
}

impl View for LoadInfo {
    type V = LoadInfoView;

    open spec fn view(&self) -> LoadInfoView {
        match *self {
            LoadInfo::Chunk(chunk) => LoadInfoView::Chunk(chunk@),
            LoadInfo::Duration(song_id, duration) => LoadInfoView::Duration(song_id, duration),
            LoadInfo::Failed(song_id, error) => LoadInfoView::Failed(song_id, error),
        }
    }
}

/// Which way a seek goes.
#[derive(Clone, Copy, Debug, PartialEq, Eq, Structural)]
pub enum SeekDirection {
    Forward,
    Backward,
}

/// A jump within the current song.
#[derive(Clone, Copy, Debug, PartialEq, Eq, Structural)]
pub struct SeekCommand {
    pub duration: Duration,
    pub direction: SeekDirection,
}

impl SeekCommand {
    /// The jump in nanoseconds, positive where it goes forward.
    pub open spec fn signed_nanos(self) -> int {
        match self.direction {
            SeekDirection::Forward => self.duration.nanos as int,
            SeekDirection::Backward => -(self.duration.nanos as int),
        }
    }

    /// The jump of `nanos` nanoseconds: forward where `nanos` is positive, backward
    /// otherwise, and no longer than the longest span.
    pub open spec fn spec_from_signed(nanos: int) -> SeekCommand {
        let distance = if nanos < 0 {
            -nanos
        } else {
            nanos
        };
        SeekCommand {
            duration: Duration {
                nanos: if distance > u128::MAX {
                    u128::MAX
                } else {
                    distance as u128
                },
            },
            direction: if nanos > 0 {
                SeekDirection::Forward
            } else {
                SeekDirection::Backward
            },
        }
    }

    /// One jump in place of two that follow each other.
    pub open spec fn spec_join(a: SeekCommand, b: SeekCommand) -> SeekCommand {
        Self::spec_from_signed(a.signed_nanos() + b.signed_nanos())
    }

    /// Adds two jumps up into one.
    pub fn join(a: SeekCommand, b: SeekCommand) -> (joined: SeekCommand)
        ensures
            joined == Self::spec_join(a, b),
    {
        match (a.direction, b.direction) {
            (SeekDirection::Forward, SeekDirection::Forward) => {
                let nanos = a.duration.nanos.saturating_add(b.duration.nanos);
                SeekCommand {
                    duration: Duration { nanos },
                    direction: if nanos > 0 {
                        SeekDirection::Forward
                    } else {
                        SeekDirection::Backward
                    },
                }
            },
            (SeekDirection::Backward, SeekDirection::Backward) => SeekCommand {
                duration: Duration { nanos: a.duration.nanos.saturating_add(b.duration.nanos) },
                direction: SeekDirection::Backward,
            },
            (SeekDirection::Forward, SeekDirection::Backward) => Self::difference(
                a.duration.nanos,
                b.duration.nanos,
            ),
            (SeekDirection::Backward, SeekDirection::Forward) => Self::difference(
                b.duration.nanos,
                a.duration.nanos,
            ),
        }
    }

    /// The jump that goes `forward` nanoseconds on and `backward` nanoseconds back.
    fn difference(forward: u128, backward: u128) -> (jump: SeekCommand)
        ensures
            jump == Self::spec_from_signed(forward - backward),
    {
        if forward > backward {
            SeekCommand {
                duration: Duration { nanos: forward - backward },
                direction: SeekDirection::Forward,
            }
        } else {
            SeekCommand {
                duration: Duration { nanos: backward - forward },
                direction: SeekDirection::Backward,
            }
        }
    }
}

/// What the controller asks of the engine.
pub enum AudioCommand {
    Play(Song),
    Queue(Song),
    Pause,
    Unpause,
    Seek(SeekCommand),
    /// The gain in hundredths of full scale.
    SetVolume(u8),
}

/// What the engine tells the controller.
#[derive(Clone, Copy, Debug, PartialEq, Eq, Structural)]
pub enum AudioInfo {
    Playing(SongID, Duration),
    SongStarts(SongID),
    FailedOpen(SongID, OpenError),
    SongDuration(SongID, Duration),
}

/// How far the source has come within a song.
#[derive(Clone, Copy, Debug, PartialEq, Eq, Structural)]
pub struct PlayingUpdate {
    pub song_id: SongID,
    pub samples_played: usize,
}

/// What the source tells the engine.
#[derive(Clone, Copy, Debug, PartialEq, Eq, Structural)]
pub enum AudioUpdate {
    Playing(PlayingUpdate),
    SongStarts(SongID),
}

/// Everything that reaches the engine.
pub enum AudioBackendCommand {
    Command(AudioCommand),
    Update(AudioUpdate),
    LoadInfo(LoadInfo),
}

} // verus!
