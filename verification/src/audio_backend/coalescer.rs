use crate::audio_backend::{
    AudioBackendCommand, AudioCommand, AudioUpdate, PlayingUpdate, SeekCommand,
};
use crate::song::Song;
use vstd::prelude::*;

verus! {

/// The message itself where it keeps its place in a batch: a queued song, a pause, a
/// resume, the start of a song.
pub open spec fn pick_in_place(message: AudioBackendCommand) -> Option<AudioBackendCommand> {
    match message {
        AudioBackendCommand::Command(AudioCommand::Queue(_)) => Some(message),
        AudioBackendCommand::Command(AudioCommand::Pause) => Some(message),
        AudioBackendCommand::Command(AudioCommand::Unpause) => Some(message),
        AudioBackendCommand::Update(AudioUpdate::SongStarts(_)) => Some(message),
        _ => None,
    }
}

/// The message itself where a loader sent it.
pub open spec fn pick_load_info(message: AudioBackendCommand) -> Option<AudioBackendCommand> {
    match message {
        AudioBackendCommand::LoadInfo(_) => Some(message),
        _ => None,
    }
}

/// The song of a message that asks to play one.
pub open spec fn pick_play(message: AudioBackendCommand) -> Option<Song> {
    match message {
        AudioBackendCommand::Command(AudioCommand::Play(song)) => Some(song),
        _ => None,
    }
}

/// The progress that a message reports.
pub open spec fn pick_playing(message: AudioBackendCommand) -> Option<PlayingUpdate> {
    match message {
        AudioBackendCommand::Update(AudioUpdate::Playing(playing)) => Some(playing),
        _ => None,
    }
}

/// The jump that a message asks for.
pub open spec fn pick_seek(message: AudioBackendCommand) -> Option<SeekCommand> {
    match message {
        AudioBackendCommand::Command(AudioCommand::Seek(seek)) => Some(seek),
        _ => None,
    }
}

/// The volume that a message sets.
pub open spec fn pick_volume(message: AudioBackendCommand) -> Option<u8> {
    match message {
        AudioBackendCommand::Command(AudioCommand::SetVolume(volume)) => Some(volume),
        _ => None,
    }
}

/// The last item of a sequence, if it has one.
pub open spec fn last_of<T>(items: Seq<T>) -> Option<T> {
    if items.len() > 0 {
        Some(items.last())
    } else {
        None
    }
}

/// All jumps of a sequence joined into one, from the first on.
pub open spec fn join_all(seeks: Seq<SeekCommand>) -> Option<SeekCommand>
    decreases seeks.len(),
{
    if seeks.len() == 0 {
        None
    } else {
        match join_all(seeks.drop_last()) {
            None => Some(seeks.last()),
            Some(joined) => Some(SeekCommand::spec_join(joined, seeks.last())),
        }
    }
}

/// The sum of all jumps of a sequence in nanoseconds, forward counted as positive.
pub open spec fn seek_total(seeks: Seq<SeekCommand>) -> int
    decreases seeks.len(),
{
    if seeks.len() == 0 {
        0
    } else {
        seek_total(seeks.drop_last()) + seeks.last().signed_nanos()
    }
}

/// The sum of the lengths of all jumps of a sequence in nanoseconds.
pub open spec fn seek_distance(seeks: Seq<SeekCommand>) -> int
    decreases seeks.len(),
{
    if seeks.len() == 0 {
        0
    } else {
        seek_distance(seeks.drop_last()) + seeks.last().duration.nanos
    }
}

/// No message or one.
pub open spec fn optional<T>(item: Option<T>) -> Seq<T> {
    match item {
        Some(item) => seq![item],
        None => Seq::empty(),
    }
}

/// The messages that stand for all that a batch asked to play, reported as progress,
/// jumped and set as volume: one of each at most, in this order.
pub open spec fn replayed(
    play: Option<Song>,
    playing: Option<PlayingUpdate>,
    seek: Option<SeekCommand>,
    volume: Option<u8>,
) -> Seq<AudioBackendCommand> {
    optional(
        match play {
            Some(song) => Some(AudioBackendCommand::Command(AudioCommand::Play(song))),
            None => None,
        },
    ) + optional(
        match playing {
            Some(playing) => Some(AudioBackendCommand::Update(AudioUpdate::Playing(playing))),
            None => None,
        },
    ) + optional(
        match seek {
            Some(seek) => Some(AudioBackendCommand::Command(AudioCommand::Seek(seek))),
            None => None,
        },
    ) + optional(
        match volume {
            Some(volume) => Some(AudioBackendCommand::Command(AudioCommand::SetVolume(volume))),
            None => None,
        },
    )
}

/// The batch that does what `batch` does with the fewest messages.
///
/// Messages that keep their place come first, in their order; then all that loaders
/// sent, in their order; then the last song to play, the last progress, all jumps as
/// one, and the last volume.
pub open spec fn spec_simplify(batch: Seq<AudioBackendCommand>) -> Seq<AudioBackendCommand> {
    batch.filter_map(|m| pick_in_place(m)) + batch.filter_map(|m| pick_load_info(m)) + replayed(
        last_of(batch.filter_map(|m| pick_play(m))),
        last_of(batch.filter_map(|m| pick_playing(m))),
        join_all(batch.filter_map(|m| pick_seek(m))),
        last_of(batch.filter_map(|m| pick_volume(m))),
    )
}

impl AudioBackendCommand {
    /// Compresses a batch of messages into the shortest batch that does the same.
    pub fn simplify(vec: Vec<AudioBackendCommand>) -> (result: Vec<AudioBackendCommand>)
        ensures
            result@ == spec_simplify(vec@),
    {
        let ghost batch = vec@;
        let mut result: Vec<AudioBackendCommand> = Vec::new();
        let mut last_play_command: Option<Song> = None;
        let mut last_playing_update: Option<PlayingUpdate> = None;
        let mut seek_command: Option<SeekCommand> = None;
        let mut last_set_volume: Option<u8> = None;
        let mut load_infos: Vec<AudioBackendCommand> = Vec::new();

        for message in iter: vec.into_iter()
            invariant
                iter.seq() == batch,
                result@ == batch.take(iter.index()).filter_map(|m| pick_in_place(m)),
                load_infos@ == batch.take(iter.index()).filter_map(|m| pick_load_info(m)),
                last_play_command == last_of(batch.take(iter.index()).filter_map(|m| pick_play(m))),
                last_playing_update == last_of(
                    batch.take(iter.index()).filter_map(|m| pick_playing(m)),
                ),
                seek_command == join_all(batch.take(iter.index()).filter_map(|m| pick_seek(m))),
                last_set_volume == last_of(batch.take(iter.index()).filter_map(|m| pick_volume(m))),
        {
            proof {
                let i = iter.index();
                batch.lemma_filter_map_take_succ(|m| pick_in_place(m), i);
                batch.lemma_filter_map_take_succ(|m| pick_load_info(m), i);
                batch.lemma_filter_map_take_succ(|m| pick_play(m), i);
                batch.lemma_filter_map_take_succ(|m| pick_playing(m), i);
                batch.lemma_filter_map_take_succ(|m| pick_seek(m), i);
                batch.lemma_filter_map_take_succ(|m| pick_volume(m), i);
                let seeks = batch.take(i).filter_map(|m| pick_seek(m));
                if let Some(seek) = pick_seek(batch[i]) {
                    assert((seeks + seq![seek]).drop_last() =~= seeks);
                }
            }
            match message {
                AudioBackendCommand::Command(command) => {
                    match command {
                        AudioCommand::Play(song) => {
                            last_play_command = Some(song);
                        },
                        AudioCommand::Seek(new_seek) => {
                            seek_command =
                            match seek_command {
                                None => Some(new_seek),
                                Some(old_seek) => Some(SeekCommand::join(old_seek, new_seek)),
                            };
                        },
                        AudioCommand::SetVolume(volume) => {
                            last_set_volume = Some(volume);
                        },
                        command => {
                            result.push(AudioBackendCommand::Command(command));
                        },
                    }
                },
                AudioBackendCommand::Update(update) => {
                    match update {
                        AudioUpdate::Playing(playing) => {
                            last_playing_update = Some(playing);
                        },
                        update => {
                            result.push(AudioBackendCommand::Update(update));
                        },
                    }
                },
                AudioBackendCommand::LoadInfo(load_info) => {
                    load_infos.push(AudioBackendCommand::LoadInfo(load_info));
                },
            }
        }
        assert(batch.take(batch.len() as int) =~= batch);
        result.append(&mut load_infos);
        if let Some(song) = last_play_command {
            result.push(AudioBackendCommand::Command(AudioCommand::Play(song)));
        }
        if let Some(playing) = last_playing_update {
            result.push(AudioBackendCommand::Update(AudioUpdate::Playing(playing)));
        }
        if let Some(seek) = seek_command {
            result.push(AudioBackendCommand::Command(AudioCommand::Seek(seek)));
        }
        if let Some(volume) = last_set_volume {
            result.push(AudioBackendCommand::Command(AudioCommand::SetVolume(volume)));
        }
        assert(result@ =~= spec_simplify(batch));
        result
    }
}

/// What is picked from two sequences in a row is what is picked from each, in a row.
proof fn lemma_filter_map_concat<A, B>(a: Seq<A>, b: Seq<A>, pick: spec_fn(A) -> Option<B>)
    ensures
        (a + b).filter_map(pick) == a.filter_map(pick) + b.filter_map(pick),
    decreases b.len(),
{
    if b.len() == 0 {
        assert(a + b =~= a);
        assert(a.filter_map(pick) + b.filter_map(pick) =~= a.filter_map(pick));
    } else {
        lemma_filter_map_concat(a, b.drop_last(), pick);
        assert((a + b).drop_last() =~= a + b.drop_last());
        assert((a + b).last() == b.last());
        match pick(b.last()) {
            Some(item) => {
                assert((a + b).filter_map(pick) =~= a.filter_map(pick) + b.filter_map(pick));
            },
            None => {},
        }
    }
}

/// Nothing is picked from a sequence of which no item is picked.
proof fn lemma_filter_map_none<A, B>(items: Seq<A>, pick: spec_fn(A) -> Option<B>)
    requires
        forall|i: int| 0 <= i < items.len() ==> pick(#[trigger] items[i]) is None,
    ensures
        items.filter_map(pick) == Seq::<B>::empty(),
    decreases items.len(),
{
    if items.len() > 0 {
        assert(pick(items[items.len() - 1]) is None);
        lemma_filter_map_none(items.drop_last(), pick);
    }
}

/// A sequence of which every item is picked as itself is picked whole.
proof fn lemma_filter_map_all<A>(items: Seq<A>, pick: spec_fn(A) -> Option<A>)
    requires
        forall|i: int| 0 <= i < items.len() ==> pick(#[trigger] items[i]) == Some(items[i]),
    ensures
        items.filter_map(pick) == items,
    decreases items.len(),
{
    if items.len() > 0 {
        assert(pick(items[items.len() - 1]) == Some(items.last()));
        lemma_filter_map_all(items.drop_last(), pick);
        assert(items.drop_last() + seq![items.last()] =~= items);
    }
}

/// What is picked from no item or one.
proof fn lemma_filter_map_optional<A, B>(item: Option<A>, pick: spec_fn(A) -> Option<B>)
    ensures
        optional(item).filter_map(pick) == match item {
            Some(item) => optional(pick(item)),
            None => Seq::empty(),
        },
{
    match item {
        Some(item) => {
            Seq::lemma_filter_map_singleton(item, pick);
        },
        None => {},
    }
}

/// What is picked from the messages that a batch ends with once it is compressed.
proof fn lemma_filter_map_replayed<B>(
    play: Option<Song>,
    playing: Option<PlayingUpdate>,
    seek: Option<SeekCommand>,
    volume: Option<u8>,
    pick: spec_fn(AudioBackendCommand) -> Option<B>,
)
    ensures
        replayed(play, playing, seek, volume).filter_map(pick) == (match play {
            Some(song) => optional(pick(AudioBackendCommand::Command(AudioCommand::Play(song)))),
            None => Seq::empty(),
        }) + (match playing {
            Some(playing) => optional(
                pick(AudioBackendCommand::Update(AudioUpdate::Playing(playing))),
            ),
            None => Seq::empty(),
        }) + (match seek {
            Some(seek) => optional(pick(AudioBackendCommand::Command(AudioCommand::Seek(seek)))),
            None => Seq::empty(),
        }) + (match volume {
            Some(volume) => optional(
                pick(AudioBackendCommand::Command(AudioCommand::SetVolume(volume))),
            ),
            None => Seq::empty(),
        }),
{
    let first = match play {
        Some(song) => Some(AudioBackendCommand::Command(AudioCommand::Play(song))),
        None => None,
    };
    let second = match playing {
        Some(playing) => Some(AudioBackendCommand::Update(AudioUpdate::Playing(playing))),
        None => None,
    };
    let third = match seek {
        Some(seek) => Some(AudioBackendCommand::Command(AudioCommand::Seek(seek))),
        None => None,
    };
    let fourth = match volume {
        Some(volume) => Some(AudioBackendCommand::Command(AudioCommand::SetVolume(volume))),
        None => None,
    };
    lemma_filter_map_optional(first, pick);
    lemma_filter_map_optional(second, pick);
    lemma_filter_map_optional(third, pick);
    lemma_filter_map_optional(fourth, pick);
    lemma_filter_map_concat(optional(first), optional(second), pick);
    lemma_filter_map_concat(optional(first) + optional(second), optional(third), pick);
    lemma_filter_map_concat(
        optional(first) + optional(second) + optional(third),
        optional(fourth),
        pick,
    );
}

/// What is picked from a compressed batch: from its three parts, in a row.
proof fn lemma_filter_map_simplified<B>(
    batch: Seq<AudioBackendCommand>,
    pick: spec_fn(AudioBackendCommand) -> Option<B>,
)
    ensures
        spec_simplify(batch).filter_map(pick) == batch.filter_map(|m| pick_in_place(m)).filter_map(
            pick,
        ) + batch.filter_map(|m| pick_load_info(m)).filter_map(pick) + replayed(
            last_of(batch.filter_map(|m| pick_play(m))),
            last_of(batch.filter_map(|m| pick_playing(m))),
            join_all(batch.filter_map(|m| pick_seek(m))),
            last_of(batch.filter_map(|m| pick_volume(m))),
        ).filter_map(pick),
{
    let kept = batch.filter_map(|m| pick_in_place(m));
    let loaded = batch.filter_map(|m| pick_load_info(m));
    let tail = replayed(
        last_of(batch.filter_map(|m| pick_play(m))),
        last_of(batch.filter_map(|m| pick_playing(m))),
        join_all(batch.filter_map(|m| pick_seek(m))),
        last_of(batch.filter_map(|m| pick_volume(m))),
    );
    lemma_filter_map_concat(kept, loaded, pick);
    lemma_filter_map_concat(kept + loaded, tail, pick);
}

/// Every message that keeps its place is picked as such, and as nothing else.
proof fn lemma_in_place_members(batch: Seq<AudioBackendCommand>)
    ensures
        ({
            let kept = batch.filter_map(|m| pick_in_place(m));
            forall|i: int|
                0 <= i < kept.len() ==> {
                    &&& pick_in_place(#[trigger] kept[i]) == Some(kept[i])
                    &&& pick_load_info(kept[i]) is None
                    &&& pick_play(kept[i]) is None
                    &&& pick_playing(kept[i]) is None
                    &&& pick_seek(kept[i]) is None
                    &&& pick_volume(kept[i]) is None
                }
        }),
{
    let kept = batch.filter_map(|m| pick_in_place(m));
    assert forall|i: int| 0 <= i < kept.len() implies pick_in_place(#[trigger] kept[i]) == Some(
        kept[i],
    ) by {
        assert(kept.contains(kept[i]));
        batch.lemma_filter_map_contains(|m| pick_in_place(m), kept[i]);
    }
}

/// Every message of a loader is picked as such, and as nothing else.
proof fn lemma_load_info_members(batch: Seq<AudioBackendCommand>)
    ensures
        ({
            let loaded = batch.filter_map(|m| pick_load_info(m));
            forall|i: int|
                0 <= i < loaded.len() ==> {
                    &&& pick_load_info(#[trigger] loaded[i]) == Some(loaded[i])
                    &&& pick_in_place(loaded[i]) is None
                    &&& pick_play(loaded[i]) is None
                    &&& pick_playing(loaded[i]) is None
                    &&& pick_seek(loaded[i]) is None
                    &&& pick_volume(loaded[i]) is None
                }
        }),
{
    let loaded = batch.filter_map(|m| pick_load_info(m));
    assert forall|i: int| 0 <= i < loaded.len() implies pick_load_info(#[trigger] loaded[i])
        == Some(loaded[i]) by {
        assert(loaded.contains(loaded[i]));
        batch.lemma_filter_map_contains(|m| pick_load_info(m), loaded[i]);
    }
}

/// Compressing a batch keeps what it means: the messages that keep their place and
/// those of loaders stay as they are and in their order, and the last song to play, the
/// last progress, the jumps joined into one and the last volume are those of the batch.
pub proof fn lemma_simplify_preserves(batch: Seq<AudioBackendCommand>)
    ensures
        ({
            let simplified = spec_simplify(batch);
            &&& simplified.filter_map(|m| pick_in_place(m)) == batch.filter_map(
                |m| pick_in_place(m),
            )
            &&& simplified.filter_map(|m| pick_load_info(m)) == batch.filter_map(
                |m| pick_load_info(m),
            )
            &&& last_of(simplified.filter_map(|m| pick_play(m))) == last_of(
                batch.filter_map(|m| pick_play(m)),
            )
            &&& last_of(simplified.filter_map(|m| pick_playing(m))) == last_of(
                batch.filter_map(|m| pick_playing(m)),
            )
            &&& join_all(simplified.filter_map(|m| pick_seek(m))) == join_all(
                batch.filter_map(|m| pick_seek(m)),
            )
            &&& last_of(simplified.filter_map(|m| pick_volume(m))) == last_of(
                batch.filter_map(|m| pick_volume(m)),
            )
        }),
{
    let kept = batch.filter_map(|m| pick_in_place(m));
    let loaded = batch.filter_map(|m| pick_load_info(m));
    let play = last_of(batch.filter_map(|m| pick_play(m)));
    let playing = last_of(batch.filter_map(|m| pick_playing(m)));
    let seek = join_all(batch.filter_map(|m| pick_seek(m)));
    let volume = last_of(batch.filter_map(|m| pick_volume(m)));
    lemma_in_place_members(batch);
    lemma_load_info_members(batch);

    lemma_filter_map_simplified(batch, |m| pick_in_place(m));
    lemma_filter_map_all(kept, |m| pick_in_place(m));
    lemma_filter_map_none(loaded, |m| pick_in_place(m));
    lemma_filter_map_replayed(play, playing, seek, volume, |m| pick_in_place(m));
    assert(spec_simplify(batch).filter_map(|m| pick_in_place(m)) =~= kept);

    lemma_filter_map_simplified(batch, |m| pick_load_info(m));
    lemma_filter_map_none(kept, |m| pick_load_info(m));
    lemma_filter_map_all(loaded, |m| pick_load_info(m));
    lemma_filter_map_replayed(play, playing, seek, volume, |m| pick_load_info(m));
    assert(spec_simplify(batch).filter_map(|m| pick_load_info(m)) =~= loaded);

    lemma_filter_map_simplified(batch, |m| pick_play(m));
    lemma_filter_map_none(kept, |m| pick_play(m));
    lemma_filter_map_none(loaded, |m| pick_play(m));
    lemma_filter_map_replayed(play, playing, seek, volume, |m| pick_play(m));
    assert(spec_simplify(batch).filter_map(|m| pick_play(m)) =~= optional(play));

    lemma_filter_map_simplified(batch, |m| pick_playing(m));
    lemma_filter_map_none(kept, |m| pick_playing(m));
    lemma_filter_map_none(loaded, |m| pick_playing(m));
    lemma_filter_map_replayed(play, playing, seek, volume, |m| pick_playing(m));
    assert(spec_simplify(batch).filter_map(|m| pick_playing(m)) =~= optional(playing));

    lemma_filter_map_simplified(batch, |m| pick_seek(m));
    lemma_filter_map_none(kept, |m| pick_seek(m));
    lemma_filter_map_none(loaded, |m| pick_seek(m));
    lemma_filter_map_replayed(play, playing, seek, volume, |m| pick_seek(m));
    assert(spec_simplify(batch).filter_map(|m| pick_seek(m)) =~= optional(seek));
    match seek {
        Some(joined) => {
            assert(optional(seek).drop_last() =~= Seq::<SeekCommand>::empty());
            assert(join_all(optional(seek).drop_last()) is None);
        },
        None => {},
    }

    lemma_filter_map_simplified(batch, |m| pick_volume(m));
    lemma_filter_map_none(kept, |m| pick_volume(m));
    lemma_filter_map_none(loaded, |m| pick_volume(m));
    lemma_filter_map_replayed(play, playing, seek, volume, |m| pick_volume(m));
    assert(spec_simplify(batch).filter_map(|m| pick_volume(m)) =~= optional(volume));
}

/// A compressed batch is as short as it gets: compressing it again changes nothing.
pub proof fn lemma_simplify_idempotent(batch: Seq<AudioBackendCommand>)
    ensures
        spec_simplify(spec_simplify(batch)) == spec_simplify(batch),
{
    lemma_simplify_preserves(batch);
}

/// The empty batch stays empty.
pub proof fn lemma_simplify_empty()
    ensures
        spec_simplify(Seq::empty()) == Seq::<AudioBackendCommand>::empty(),
{
    assert(spec_simplify(Seq::empty()) =~= Seq::<AudioBackendCommand>::empty());
}

/// Jumps joined into one make the jump of their sum, as long as the lengths of all of
/// them together stay within the longest span. A sequence without jumps joins to none.
pub proof fn lemma_join_all_is_sum(seeks: Seq<SeekCommand>)
    requires
        seek_distance(seeks) <= u128::MAX,
    ensures
        join_all(seeks) is None <==> seeks.len() == 0,
        join_all(seeks) matches Some(joined) ==> joined.signed_nanos() == seek_total(seeks),
        -seek_distance(seeks) <= seek_total(seeks) <= seek_distance(seeks),
    decreases seeks.len(),
{
    if seeks.len() > 0 {
        lemma_join_all_is_sum(seeks.drop_last());
    }
}

} // verus!
